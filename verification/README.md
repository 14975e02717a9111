# slauncher-backend

The verified core of a small HTTP back end that creates and configures
Minecraft servers (Forge and Fabric).

- `src/` is the library, verified with Verus:
  - `text` – trimming, line splitting, decimal formatting and integer
    parsing over character sequences;
  - `properties_format` – which lines of a `server.properties` text carry
    a key and value, and which value a key has;
  - `server_properties` – the server settings: reading them from a text,
    checking the ports, turning them into key/value updates;
  - `routes` – rewriting a `server.properties` text with updates, and the
    answer each outcome of a request gets;
  - `laws`, `settings_laws` – what reading a rewritten text gives back;
  - `server_types`, `fabric`, `forge` – server directories, download URLs
    and launch commands;
  - `entities`, `dtos`, `db`, `file_downloader` – the stored servers, the
    HTTP bodies, the database set-up decision, download errors.
- `app/` is the program around it: the actix-web handlers, the sea-orm
  database, downloads with reqwest and the processes run with tokio.
- `tests/` exercise the library on concrete values.
