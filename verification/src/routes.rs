//! What the HTTP handlers decide, apart from the I/O they perform: how a
//! `server.properties` text is rewritten with updates, and which answer each
//! outcome of a request gets.

use vstd::prelude::*;

use crate::dtos::{CreateServerRequest, ServerResponse};
use crate::entities::{server_type_debug, Model, ServerType};
use crate::properties_format::{lookup, lookup_exec, text_entries, updates_view, Entry};
use crate::server_properties::{port_error, ServerProperties};
use crate::server_types::{join_path, path_join, SERVERS_DIR};
use crate::text::{
    chars_eq, chars_of, copy_range, dec_int, find_char, find_char_exec, fmt_i32, lines, lines_of,
    push_char, push_chars, trim, trim_chars,
};

verus! {

/// The key that a line of the file holds for rewriting: for a line that is
/// neither blank nor a comment and holds `=`, what precedes the first `=` of
/// the untrimmed line.
pub open spec fn raw_key(l: Seq<char>) -> Option<Seq<char>> {
    let t = trim(l);
    if t.len() == 0 || t[0] == '#' {
        None
    } else {
        match find_char(l, '=') {
            Some(p) => Some(l.take(p)),
            None => None,
        }
    }
}

/// The line `k=v`, without its line end.
pub open spec fn kv_line(k: Seq<char>, v: Seq<char>) -> Seq<char> {
    k + seq!['='] + v
}

/// A line after rewriting: a line whose key has an update becomes
/// `key=value` with the value of the last update for that key; any other
/// line stays as it is.
pub open spec fn out_line(l: Seq<char>, us: Seq<Entry>) -> Seq<char> {
    match raw_key(l) {
        Some(k) => match lookup(us, k) {
            Some(v) => kv_line(k, v),
            None => l,
        },
        None => l,
    }
}

/// The rewritten lines, each followed by a newline.
pub open spec fn body_text(ls: Seq<Seq<char>>, us: Seq<Entry>) -> Seq<char>
    decreases ls.len(),
{
    if ls.len() == 0 {
        Seq::empty()
    } else {
        body_text(ls.drop_last(), us) + out_line(ls.last(), us) + seq!['\n']
    }
}

/// Whether some line of `ls` holds key `k`.
pub open spec fn key_seen(ls: Seq<Seq<char>>, k: Seq<char>) -> bool {
    exists|i: int| 0 <= i < ls.len() && #[trigger] raw_key(ls[i]) == Some(k)
}

/// The lines appended for the updates `vs` whose key no line of `ls` holds,
/// in the order of `vs`.
pub open spec fn tail_text(ls: Seq<Seq<char>>, vs: Seq<Entry>) -> Seq<char>
    decreases vs.len(),
{
    if vs.len() == 0 {
        Seq::empty()
    } else {
        let rest = tail_text(ls, vs.drop_last());
        if key_seen(ls, vs.last().0) {
            rest
        } else {
            rest + kv_line(vs.last().0, vs.last().1) + seq!['\n']
        }
    }
}

/// The text of `content` with the updates `us` applied.
pub open spec fn applied(content: Seq<char>, us: Seq<Entry>) -> Seq<char> {
    body_text(lines(content), us) + tail_text(lines(content), us)
}

/// Whether the key `k` is among the characters vectors of `seen`.
fn contains_key(seen: &Vec<Vec<char>>, k: &Vec<char>) -> (r: bool)
    ensures
        r == exists|i: int| 0 <= i < seen@.len() && #[trigger] seen@[i]@ == k@,
{
    let n: usize = seen.len();
    let mut i: usize = 0;
    while i < n
        invariant
            n == seen.len(),
            i <= n,
            forall|j: int| 0 <= j < i ==> #[trigger] seen@[j]@ != k@,
        decreases n - i,
    {
        if chars_eq(&seen[i], k) {
            return true;
        }
        i = i + 1;
    }
    false
}

/// The raw key of a line (see `raw_key`).
fn raw_key_exec(l: &Vec<char>) -> (r: Option<Vec<char>>)
    ensures
        raw_key(l@) == (match r {
            Some(k) => Some(k@),
            None => None::<Seq<char>>,
        }),
{
    let t = trim_chars(l);
    if t.len() == 0 || t[0] == '#' {
        return None;
    }
    match find_char_exec(l, '=') {
        Some(p) => {
            let k = copy_range(l, 0, p);
            assert(k@ =~= l@.take(p as int));
            Some(k)
        },
        None => None,
    }
}

/// The updates as character vectors.
fn updates_chars(updates: &[(&str, String)]) -> (r: Vec<(Vec<char>, Vec<char>)>)
    ensures
        crate::properties_format::pairs_view(r@) == updates_view(updates@),
{
    let n: usize = updates.len();
    let mut r: Vec<(Vec<char>, Vec<char>)> = Vec::new();
    let mut i: usize = 0;
    while i < n
        invariant
            n == updates@.len(),
            i <= n,
            crate::properties_format::pairs_view(r@) == updates_view(updates@).take(i as int),
        decreases n - i,
    {
        let pair = &updates[i];
        let k = chars_of(pair.0);
        let v = chars_of(pair.1.as_str());
        assert(k@ == updates@[i as int].0@);
        assert(v@ == updates@[i as int].1@);
        let ghost o = r@;
        r.push((k, v));
        assert(crate::properties_format::pairs_view(r@) =~= crate::properties_format::pairs_view(o).push((k@, v@)));
        assert(crate::properties_format::pairs_view(r@) =~= updates_view(updates@).take(i as int + 1));
        i = i + 1;
    }
    assert(updates_view(updates@).take(n as int) =~= updates_view(updates@));
    r
}

/// Apply in-memory property updates to a `server.properties` file on disk.
///
/// Reads the existing file, overwrites values for keys present in `updates`,
/// and appends any keys that are not already in the file.
pub fn apply_properties(content: &str, updates: &[(&str, String)]) -> (r: String)
    ensures
        r@ == applied(content@, updates_view(updates@)),
{
    let ghost us = updates_view(updates@);
    let ups = updates_chars(updates);
    let cs = chars_of(content);
    let ls = lines_of(&cs);
    let ghost lv = lines(content@);
    assert(ls@.map_values(|l: Vec<char>| l@) == lv);
    let n: usize = ls.len();
    let mut seen: Vec<Vec<char>> = Vec::new();
    let mut out = String::new();
    let mut i: usize = 0;
    while i < n
        invariant
            n == ls.len(),
            i <= n,
            lv == ls@.map_values(|l: Vec<char>| l@),
            us == crate::properties_format::pairs_view(ups@),
            out@ == body_text(lv.take(i as int), us),
            forall|k: Seq<char>|
                lookup(us, k) is Some ==> (key_seen(lv.take(i as int), k) <==> exists|j: int|
                    0 <= j < seen@.len() && #[trigger] seen@[j]@ == k),
        decreases n - i,
    {
        let ghost pre = lv.take(i as int);
        let ghost post = lv.take(i as int + 1);
        assert(post.drop_last() =~= pre);
        assert(post.last() == ls@[i as int]@);
        let line = &ls[i];
        match raw_key_exec(line) {
            Some(k) => {
                match lookup_exec(&ups, &k) {
                    Some(v) => {
                        push_chars(&mut out, &k);
                        push_char(&mut out, '=');
                        push_chars(&mut out, &v);
                        push_char(&mut out, '\n');
                        let ghost old_seen = seen@;
                        seen.push(k);
                        proof {
                            assert forall|kk: Seq<char>| lookup(us, kk) is Some implies (key_seen(
                                post,
                                kk,
                            ) <==> exists|j: int|
                                0 <= j < seen@.len() && #[trigger] seen@[j]@ == kk) by {
                                if key_seen(pre, kk) {
                                    let j = choose|j: int| 0 <= j < pre.len() && #[trigger] raw_key(pre[j]) == Some(kk);
                                    assert(raw_key(post[j]) == Some(kk));
                                }
                                if exists|j: int| 0 <= j < old_seen.len() && #[trigger] old_seen[j]@ == kk {
                                    let j = choose|j: int| 0 <= j < old_seen.len() && #[trigger] old_seen[j]@ == kk;
                                    assert(seen@[j]@ == kk);
                                }
                                if key_seen(post, kk) && !key_seen(pre, kk) {
                                    let j = choose|j: int| 0 <= j < post.len() && #[trigger] raw_key(post[j]) == Some(kk);
                                    assert(j == i);
                                    assert(seen@[old_seen.len() as int]@ == kk);
                                }
                                if (exists|j: int| 0 <= j < seen@.len() && #[trigger] seen@[j]@ == kk) && !(exists|j: int| 0 <= j < old_seen.len() && #[trigger] old_seen[j]@ == kk) {
                                    let j = choose|j: int| 0 <= j < seen@.len() && #[trigger] seen@[j]@ == kk;
                                    assert(j == old_seen.len());
                                    assert(raw_key(post[i as int]) == Some(kk));
                                }
                            }
                        }
                    },
                    None => {
                        push_chars(&mut out, line);
                        push_char(&mut out, '\n');
                        proof {
                            assert forall|kk: Seq<char>| lookup(us, kk) is Some implies (key_seen(
                                post,
                                kk,
                            ) <==> key_seen(pre, kk)) by {
                                if key_seen(post, kk) {
                                    let j = choose|j: int| 0 <= j < post.len() && #[trigger] raw_key(post[j]) == Some(kk);
                                    if j == i {
                                        assert(kk == k@);
                                    } else {
                                        assert(raw_key(pre[j]) == Some(kk));
                                    }
                                }
                                if key_seen(pre, kk) {
                                    let j = choose|j: int| 0 <= j < pre.len() && #[trigger] raw_key(pre[j]) == Some(kk);
                                    assert(raw_key(post[j]) == Some(kk));
                                }
                            }
                        }
                    },
                }
            },
            None => {
                push_chars(&mut out, line);
                push_char(&mut out, '\n');
                proof {
                    assert forall|kk: Seq<char>| lookup(us, kk) is Some implies (key_seen(post, kk)
                        <==> key_seen(pre, kk)) by {
                        if key_seen(post, kk) {
                            let j = choose|j: int| 0 <= j < post.len() && #[trigger] raw_key(post[j]) == Some(kk);
                            if j < i {
                                assert(raw_key(pre[j]) == Some(kk));
                            }
                        }
                        if key_seen(pre, kk) {
                            let j = choose|j: int| 0 <= j < pre.len() && #[trigger] raw_key(pre[j]) == Some(kk);
                            assert(raw_key(post[j]) == Some(kk));
                        }
                    }
                }
            },
        }
        assert(out@ =~= body_text(post, us));
        i = i + 1;
    }
    assert(lv.take(n as int) =~= lv);
    let ghost body = out@;
    let m: usize = ups.len();
    let mut j: usize = 0;
    while j < m
        invariant
            m == ups.len(),
            j <= m,
            us == crate::properties_format::pairs_view(ups@),
            out@ == body + tail_text(lv, us.take(j as int)),
            forall|k: Seq<char>|
                lookup(us, k) is Some ==> (key_seen(lv, k) <==> exists|jj: int|
                    0 <= jj < seen@.len() && #[trigger] seen@[jj]@ == k),
        decreases m - j,
    {
        let ghost vs = us.take(j as int + 1);
        assert(vs.drop_last() =~= us.take(j as int));
        assert(vs.last() == (ups@[j as int].0@, ups@[j as int].1@));
        proof {
            lemma_lookup_some(us, j as int);
        }
        if !contains_key(&seen, &ups[j].0) {
            push_chars(&mut out, &ups[j].0);
            push_char(&mut out, '=');
            push_chars(&mut out, &ups[j].1);
            push_char(&mut out, '\n');
        }
        assert(out@ =~= body + tail_text(lv, vs));
        j = j + 1;
    }
    assert(us.take(m as int) =~= us);
    out
}

// ---------------------------------------------------------------------------
// Answers
// ---------------------------------------------------------------------------

/// An answer to an HTTP request.
#[derive(Debug)]
pub enum Reply {
    /// A plain-text answer with its status code.
    Text { status: u16, body: String },
    /// `201 Created`, with the created server.
    Created(ServerResponse),
    /// `200 OK`, with a server's settings.
    Properties(ServerProperties),
}

/// Whether `r` is the plain-text answer `status` with body `body`.
pub open spec fn is_text(r: Reply, status: u16, body: Seq<char>) -> bool {
    r matches Reply::Text { status: s, body: b } && s == status && b@ == body
}

/// A plain-text answer.
fn text(status: u16, body: String) -> (r: Reply)
    ensures
        is_text(r, status, body@),
{
    Reply::Text { status, body }
}

/// `prefix` followed by `rest`.
fn concat(prefix: &str, rest: &str) -> (r: String)
    ensures
        r@ == prefix@ + rest@,
{
    let mut s = prefix.to_owned();
    s.append(rest);
    s
}

/// Convert a database error (by its message) into a 500 response.
pub fn db_error(message: &str) -> (r: Reply)
    ensures
        is_text(r, 500, "Database error: "@ + message@),
{
    text(500, concat("Database error: ", message))
}

/// The outcome of looking a server up: the server, `404 Server not found`
/// when there is none, or a database error.
pub fn found_server(result: Result<Option<Model>, String>) -> (r: Result<Model, Reply>)
    ensures
        match result {
            Ok(Some(m)) => r == Ok::<Model, Reply>(m),
            Ok(None) => r matches Err(x) && is_text(x, 404, "Server not found"@),
            Err(e) => r matches Err(x) && is_text(x, 500, "Database error: "@ + e@),
        },
{
    match result {
        Ok(Some(model)) => Ok(model),
        Ok(None) => Err(text(404, "Server not found".to_owned())),
        Err(e) => Err(db_error(e.as_str())),
    }
}

/// The directory of the server with id `id`.
pub open spec fn server_dir_spec(id: i32) -> Seq<char> {
    path_join(SERVERS_DIR@, dec_int(id as int))
}

/// The directory of the server with id `id`.
pub fn server_dir(id: i32) -> (r: String)
    ensures
        r@ == server_dir_spec(id),
{
    let n = fmt_i32(id);
    join_path(SERVERS_DIR, n.as_str())
}

/// The path of `eula.txt` of the server with id `id`.
pub fn eula_path(id: i32) -> (r: String)
    ensures
        r@ == path_join(server_dir_spec(id), "eula.txt"@),
{
    let d = server_dir(id);
    join_path(d.as_str(), "eula.txt")
}

/// What `eula.txt` says once the EULA is accepted.
pub const EULA_CONTENT: &'static str = "eula=true\n";

/// The path of `server.properties` of the server with id `id`.
pub fn properties_path(id: i32) -> (r: String)
    ensures
        r@ == path_join(server_dir_spec(id), "server.properties"@),
{
    let d = server_dir(id);
    join_path(d.as_str(), "server.properties")
}

/// Where a server's files are: `./servers/{id}`, with `eula.txt` and
/// `server.properties` directly inside it.
pub proof fn law_server_paths(id: i32)
    ensures
        server_dir_spec(id) == "./servers/"@ + dec_int(id as int),
        path_join(server_dir_spec(id), "eula.txt"@) == "./servers/"@ + dec_int(id as int)
            + "/eula.txt"@,
        path_join(server_dir_spec(id), "server.properties"@) == "./servers/"@ + dec_int(id as int)
            + "/server.properties"@,
{
    reveal_strlit("./servers");
    reveal_strlit("./servers/");
    reveal_strlit("/");
    reveal_strlit("eula.txt");
    reveal_strlit("/eula.txt");
    reveal_strlit("server.properties");
    reveal_strlit("/server.properties");
    let d = dec_int(id as int);
    if id < 0 {
        crate::text::lemma_dec_nat((-id) as nat);
        assert(d[0] == '-');
    } else {
        crate::text::lemma_dec_nat(id as nat);
        assert(crate::text::is_digit(d[0]));
    }
    assert(d.len() > 0);
    assert(SERVERS_DIR@ + "/"@ + d =~= "./servers/"@ + d);
    let sd = server_dir_spec(id);
    assert(sd.last() == d.last());
    assert(sd + "/"@ + "eula.txt"@ =~= "./servers/"@ + d + "/eula.txt"@);
    assert(sd + "/"@ + "server.properties"@ =~= "./servers/"@ + d + "/server.properties"@);
}

/// The answer once `eula.txt` was written, or failed to be.
pub fn eula_reply(written: Result<(), String>) -> (r: Reply)
    ensures
        match written {
            Ok(_) => is_text(r, 200, "EULA accepted"@),
            Err(e) => is_text(r, 500, "Failed to write eula.txt: "@ + e@),
        },
{
    match written {
        Ok(_) => text(200, "EULA accepted".to_owned()),
        Err(e) => text(500, concat("Failed to write eula.txt: ", e.as_str())),
    }
}

/// The answer to a request for a server's settings, once its
/// `server.properties` was read or failed to be.
pub fn read_properties_reply(read: Result<String, String>) -> (r: Reply)
    ensures
        match read {
            Ok(c) => r matches Reply::Properties(p) && p.reads_from(text_entries(c@)),
            Err(e) => is_text(r, 500, "Failed to read server.properties: "@ + e@),
        },
{
    match read {
        Ok(c) => Reply::Properties(ServerProperties::from_str(c.as_str())),
        Err(e) => text(500, concat("Failed to read server.properties: ", e.as_str())),
    }
}

/// The first decision on new settings: `400` with the validation message
/// when a port is zero.
pub fn configure_check(props: &ServerProperties) -> (r: Result<(), Reply>)
    ensures
        match port_error(props.server_port, props.rcon_port, props.query_port) {
            Some(m) => r matches Err(x) && is_text(x, 400, m),
            None => r is Ok,
        },
{
    match props.validate() {
        Ok(()) => Ok(()),
        Err(e) => Err(text(400, e)),
    }
}

/// What to do with new settings once the current `server.properties` was
/// read: answer, or write the rewritten text.
pub enum ConfigureStep {
    /// Answer without writing.
    Respond(Reply),
    /// Write this text to `server.properties`.
    Write(String),
}

/// The decision once `server.properties` was read (or failed to be): a read
/// error is a `500`; settings without any value present are answered
/// `200 No properties to update`; otherwise the file is rewritten with them.
pub fn configure_content(props: &ServerProperties, read: Result<String, String>) -> (r: ConfigureStep)
    ensures
        match read {
            Err(e) => r matches ConfigureStep::Respond(x) && is_text(
                x,
                500,
                "Failed to read server.properties: "@ + e@,
            ),
            Ok(c) => if props.updates_spec().len() == 0 {
                r matches ConfigureStep::Respond(x) && is_text(x, 200, "No properties to update"@)
            } else {
                r matches ConfigureStep::Write(t) && t@ == applied(c@, props.updates_spec())
            },
        },
{
    match read {
        Err(e) => ConfigureStep::Respond(text(500, concat("Failed to read server.properties: ", e.as_str()))),
        Ok(c) => {
            let updates = props.to_updates();
            if updates.len() == 0 {
                ConfigureStep::Respond(text(200, "No properties to update".to_owned()))
            } else {
                ConfigureStep::Write(apply_properties(c.as_str(), updates.as_slice()))
            }
        },
    }
}

/// The answer once the rewritten `server.properties` was written, or failed
/// to be.
pub fn configure_written(written: Result<(), String>) -> (r: Reply)
    ensures
        match written {
            Ok(_) => is_text(r, 200, "Properties updated"@),
            Err(e) => is_text(r, 500, "Failed to write server.properties: "@ + e@),
        },
{
    match written {
        Ok(_) => text(200, "Properties updated".to_owned()),
        Err(e) => text(500, concat("Failed to write server.properties: ", e.as_str())),
    }
}

// ---------------------------------------------------------------------------
// Creating a server
// ---------------------------------------------------------------------------

/// The kinds of server that can be installed.
#[derive(Debug, Clone, Copy, PartialEq, Eq, Structural)]
pub enum InstallKind {
    Forge,
    Fabric,
}

/// Which installer a server type takes: Forge and Fabric are supported,
/// any other type is answered `400 Unsupported server type: {type:?}`.
pub fn install_kind(t: ServerType) -> (r: Result<InstallKind, Reply>)
    ensures
        match t {
            ServerType::Forge => r == Ok::<InstallKind, Reply>(InstallKind::Forge),
            ServerType::Fabric => r == Ok::<InstallKind, Reply>(InstallKind::Fabric),
            _ => r matches Err(x) && is_text(x, 400, "Unsupported server type: "@ + server_type_debug(t)),
        },
{
    match t {
        ServerType::Forge => Ok(InstallKind::Forge),
        ServerType::Fabric => Ok(InstallKind::Fabric),
        _ => Err(text(400, concat("Unsupported server type: ", t.debug_name()))),
    }
}

/// The first decision on a creation request, once it is known whether the
/// name is taken: `409` when it is, a database error as such, `None` to go
/// on and store the server.
pub fn create_after_exists(taken: Result<bool, String>) -> (r: Option<Reply>)
    ensures
        match taken {
            Ok(true) => r matches Some(x) && is_text(x, 409, "A server with this name already exists"@),
            Ok(false) => r is None,
            Err(e) => r matches Some(x) && is_text(x, 500, "Database error: "@ + e@),
        },
{
    match taken {
        Ok(true) => Some(text(409, "A server with this name already exists".to_owned())),
        Ok(false) => None,
        Err(e) => Some(db_error(e.as_str())),
    }
}

/// What to do next while creating a server.
pub enum CreateStep {
    /// Install a server of this kind into the new directory.
    Install(InstallKind),
    /// Undo what was done (remove the server's directory when
    /// `remove_dir`, delete its row), then answer.
    Abort { remove_dir: bool, reply: Reply },
}

/// The decision once the server's directory was created (or failed to be):
/// on failure, delete the row and answer `500`; otherwise install the
/// server's kind, or undo everything and answer `400` for an unsupported
/// type.
pub fn create_after_dir(req: &CreateServerRequest, made: Result<(), String>) -> (r: CreateStep)
    ensures
        match made {
            Err(e) => r matches CreateStep::Abort { remove_dir, reply } && !remove_dir && is_text(
                reply,
                500,
                "Failed to create directory: "@ + e@,
            ),
            Ok(_) => match req.server_type {
                ServerType::Forge => r == CreateStep::Install(InstallKind::Forge),
                ServerType::Fabric => r == CreateStep::Install(InstallKind::Fabric),
                _ => r matches CreateStep::Abort { remove_dir, reply } && remove_dir && is_text(
                    reply,
                    400,
                    "Unsupported server type: "@ + server_type_debug(req.server_type),
                ),
            },
        },
{
    match made {
        Err(e) => CreateStep::Abort {
            remove_dir: false,
            reply: text(500, concat("Failed to create directory: ", e.as_str())),
        },
        Ok(_) => match install_kind(req.server_type) {
            Ok(k) => CreateStep::Install(k),
            Err(reply) => CreateStep::Abort { remove_dir: true, reply },
        },
    }
}

/// How creating a server ends once it was installed, or failed to be.
pub enum CreateEnd {
    /// Answer; the server stays.
    Finish(Reply),
    /// Undo what was done (remove the server's directory when
    /// `remove_dir`, delete its row), then answer.
    Abort { remove_dir: bool, reply: Reply },
}

/// The decision once the server was installed (or failed to be): on
/// failure, remove the server's directory, delete its row and answer `500`
/// with the error's message; otherwise answer `201` with the stored server.
pub fn create_after_install(model: Model, installed: Result<(), String>) -> (r: CreateEnd)
    ensures
        match installed {
            Err(e) => r matches CreateEnd::Abort { remove_dir, reply } && remove_dir && is_text(
                reply,
                500,
                e@,
            ),
            Ok(_) => r matches CreateEnd::Finish(Reply::Created(resp)) && resp.id == model.id
                && resp.name == model.name && resp.server_type == model.server_type
                && resp.minecraft_version == model.minecraft_version && resp.server_version
                == model.server_version,
        },
{
    match installed {
        Err(e) => CreateEnd::Abort { remove_dir: true, reply: text(500, e) },
        Ok(_) => CreateEnd::Finish(Reply::Created(ServerResponse::from_model(model))),
    }
}

/// A key that occurs in a list of entries has a value there.
pub proof fn lemma_lookup_some(es: Seq<Entry>, i: int)
    requires
        0 <= i < es.len(),
    ensures
        lookup(es, es[i].0) is Some,
    decreases es.len(),
{
    if es.last().0 != es[i].0 {
        assert(es.drop_last()[i] == es[i]);
        lemma_lookup_some(es.drop_last(), i);
    }
}

} // verus!
