//! What the backend commands compute from the daemon's replies: the remote
//! list, the bisync parameters, and the rclone version.
use vstd::prelude::*;
use vstd::utf8::{decode_utf8, valid_utf8};
use crate::errors::{rclone_debug, RcloneError};
use crate::json::{distinct_keys, JsonDoc, JsonValue};
use crate::sync::status::missing_field_message;
use crate::text::{first_line, first_line_of, trim_colons, trim_trailing_colons};
use crate::types::{RemoteEntry, RemoteInfo};

verus! {

/// The text held by the string member `field` of an object.
pub open spec fn field_str(v: JsonValue, field: Seq<char>) -> Option<Seq<char>> {
    match v.get_spec(field) {
        Some(x) => x.str_spec(),
        None => None,
    }
}

/// The texts of a list of strings.
pub open spec fn texts(v: Seq<String>) -> Seq<Seq<char>> {
    v.map_values(|s: String| s@)
}

/// Unpacks the string member `field` of a reply.
pub fn get_string(resp: &JsonDoc, field: &str) -> (r: Result<String, RcloneError>)
    ensures
        match field_str(resp.value, field@) {
            Some(s) => r matches Ok(x) && x@ == s,
            None => r matches Err(RcloneError::UnexpectedResponse(m))
                && m@ == missing_field_message(field@, "response"@, resp.text@),
        },
{
    match resp.value.get(field) {
        Some(v) => match v.as_str() {
            Some(s) => {
                return Ok(s.clone());
            },
            None => {},
        },
        None => {},
    }
    let mut m = String::from_str("missing or invalid '");
    m.append(field);
    m.append("' field in ");
    m.append("response");
    m.append(": ");
    m.append(resp.text.as_str());
    Err(RcloneError::UnexpectedResponse(m))
}

/// The string items of an array, in order, each without its trailing colons;
/// items that are not strings are left out.
pub open spec fn trimmed_strings(items: Seq<JsonValue>) -> Seq<Seq<char>>
    decreases items.len(),
{
    if items.len() == 0 {
        Seq::empty()
    } else {
        let rest = trimmed_strings(items.drop_last());
        match items.last().str_spec() {
            Some(s) => rest.push(trim_trailing_colons(s)),
            None => rest,
        }
    }
}

/// The trimmed string items of the array member `field` of an object.
pub open spec fn field_trimmed_array(v: JsonValue, field: Seq<char>) -> Option<Seq<Seq<char>>> {
    match v.get_spec(field) {
        Some(x) => match x.array_spec() {
            Some(items) => Some(trimmed_strings(items)),
            None => None,
        },
        None => None,
    }
}

/// Unpacks the array of strings `field` of a reply, with the trailing `':'`
/// taken off each string (`"gdrive:"` gives `"gdrive"`).
pub fn get_trimmed_array(resp: &JsonDoc, field: &str) -> (r: Result<Vec<String>, RcloneError>)
    ensures
        match field_trimmed_array(resp.value, field@) {
            Some(names) => r matches Ok(v) && texts(v@) == names,
            None => r matches Err(RcloneError::UnexpectedResponse(m))
                && m@ == missing_field_message(field@, "response"@, resp.text@),
        },
{
    match resp.value.get(field) {
        Some(v) => match v.as_array() {
            Some(items) => {
                let mut out: Vec<String> = Vec::new();
                let mut i: usize = 0;
                while i < items.len()
                    invariant
                        i <= items.len(),
                        texts(out@) == trimmed_strings(items@.subrange(0, i as int)),
                    decreases items.len() - i,
                {
                    assert(items@.subrange(0, i + 1).drop_last() =~= items@.subrange(0, i as int));
                    match items[i].as_str() {
                        Some(s) => {
                            let t = trim_colons(s.as_str());
                            out.push(t);
                            assert(texts(out@) =~= trimmed_strings(items@.subrange(0, i as int)).push(t@));
                        },
                        None => {},
                    }
                    i = i + 1;
                }
                assert(items@.subrange(0, items@.len() as int) =~= items@);
                return Ok(out);
            },
            None => {},
        },
        None => {},
    }
    let mut m = String::from_str("missing or invalid '");
    m.append(field);
    m.append("' field in ");
    m.append("response");
    m.append(": ");
    m.append(resp.text.as_str());
    Err(RcloneError::UnexpectedResponse(m))
}

/// Whether `v` is the string `s`.
pub open spec fn is_str(v: JsonValue, s: Seq<char>) -> bool {
    v.str_spec() == Some(s)
}

/// Whether `e` is the member `key` with the string value `s`.
pub open spec fn is_str_member(e: (String, JsonValue), key: Seq<char>, s: Seq<char>) -> bool {
    e.0@ == key && is_str(e.1, s)
}

fn str_member(key: &str, value: String) -> (e: (String, JsonValue))
    ensures
        is_str_member(e, key@, value@),
{
    (String::from_str(key), JsonValue::Str(value))
}

/// Builds the remote-control parameters of a bisync run of `remote`:
/// `path1` is the local path, `path2` is `<remote>:<remote path>`, the job group
/// is `bisync:<remote>`, the config carries the conflict resolution and the
/// conflict loser, and `resync` is set to `true` only where asked for (on the
/// first run of a remote, to initialise its bisync state). The members stand in
/// key order.
pub fn bisync_rc_params(remote: &str, config: &RemoteEntry, resync: bool) -> (r: JsonValue)
    ensures
        r.well_formed(),
        r matches JsonValue::Object(entries) && {
            &&& entries@.len() == if resync { 5int } else { 4int }
            &&& entries@[0].0@ == "_config"@
            &&& entries@[0].1 matches JsonValue::Object(cfg) && {
                &&& cfg@.len() == 2
                &&& is_str_member(cfg@[0], "ConflictLoser"@, config.conflict_loser@)
                &&& is_str_member(cfg@[1], "ConflictResolve"@, config.conflict_resolve@)
            }
            &&& is_str_member(entries@[1], "_group"@, "bisync:"@ + remote@)
            &&& is_str_member(entries@[2], "path1"@, config.local_path@)
            &&& is_str_member(entries@[3], "path2"@, remote@ + ":"@ + config.remote_path@)
            &&& resync ==> entries@[4].0@ == "resync"@ && entries@[4].1 matches JsonValue::Bool(true)
        },
{
    let mut cfg: Vec<(String, JsonValue)> = Vec::new();
    cfg.push(str_member("ConflictLoser", config.conflict_loser.clone()));
    cfg.push(str_member("ConflictResolve", config.conflict_resolve.clone()));

    let mut group = String::from_str("bisync:");
    group.append(remote);

    let mut path2 = String::from_str(remote);
    path2.append(":");
    path2.append(config.remote_path.as_str());

    let mut entries: Vec<(String, JsonValue)> = Vec::new();
    entries.push((String::from_str("_config"), JsonValue::Object(cfg)));
    entries.push(str_member("_group", group));
    entries.push(str_member("path1", config.local_path.clone()));
    entries.push(str_member("path2", path2));
    if resync {
        entries.push((String::from_str("resync"), JsonValue::Bool(true)));
    }
    proof {
        reveal_strlit("ConflictLoser");
        reveal_strlit("ConflictResolve");
        reveal_strlit("_config");
        reveal_strlit("_group");
        reveal_strlit("path1");
        reveal_strlit("path2");
        reveal_strlit("resync");
        assert("ConflictLoser"@[9] != "ConflictResolve"@[9]);
        assert("_config"@[1] != "_group"@[1]);
        assert("path1"@[4] != "path2"@[4]);
        let e = entries@;
        let c = e[0].1;
        match c {
            JsonValue::Object(cfg) => {
                assert(distinct_keys(cfg@));
                assert forall|k: int| 0 <= k < cfg@.len() implies (#[trigger] cfg@[k]).1.well_formed() by {
                    assert(cfg@[k].1 is Str);
                }
            },
            _ => {},
        }
        assert(c.well_formed());
        assert forall|i: int, j: int| 0 <= i < j < e.len() implies #[trigger] e[i].0@ != #[trigger] e[j].0@ by {
            assert(e[i].0@[0] != e[j].0@[0] || e[i].0@[1] != e[j].0@[1] || e[i].0@[4] != e[j].0@[4]);
        }
        assert forall|k: int| 0 <= k < e.len() implies (#[trigger] e[k]).1.well_formed() by {
            if k > 0 {
                assert(e[k].1 is Str || e[k].1 is Bool);
            }
        }
    }
    JsonValue::Object(entries)
}

/// What `String::from_utf8_lossy` makes of a byte string.
pub uninterp spec fn utf8_lossy(bytes: Seq<u8>) -> Seq<char>;

/// Decodes `bytes` with `String::from_utf8_lossy` (std). The contract names the
/// result and states what the documentation promises: valid UTF-8 is decoded
/// as it stands. How invalid sequences are replaced is left unsaid.
#[verifier::external_body]
fn decode_utf8_lossy(bytes: &[u8]) -> (s: String)
    ensures
        s@ == utf8_lossy(bytes@),
        valid_utf8(bytes@) ==> s@ == decode_utf8(bytes@),
{
    String::from_utf8_lossy(bytes).into_owned()
}

/// What `rclone version` left when it ran: whether it exited successfully,
/// and what it wrote to standard output.
pub struct CommandOutput {
    pub success: bool,
    pub stdout: Vec<u8>,
}

/// Why `rclone version` could not be run: whether no `rclone` program was
/// found, and the debug text of the system's error.
pub struct SpawnFailure {
    pub not_found: bool,
    pub detail: String,
}

/// The version line of rclone in its decoded output: the first line, or
/// `"rclone"` where the output is empty.
pub open spec fn version_line_of(text: Seq<char>) -> Seq<char> {
    match first_line(text) {
        Some(line) => line,
        None => "rclone"@,
    }
}

/// The version line of rclone's raw output.
pub open spec fn version_line(stdout: Seq<u8>) -> Seq<char> {
    version_line_of(utf8_lossy(stdout))
}

/// Interprets a run of `rclone version`: `Err` where the process could not
/// be run, else its output. A missing program means rclone is not installed
/// (or not on PATH); any other failure to run is a failed version check. A
/// successful run gives its first output line (such as `rclone v1.68.2`), or
/// `"rclone"` where it printed nothing; an unsuccessful one means rclone is
/// not installed.
pub fn rclone_version_from(run: Result<CommandOutput, SpawnFailure>) -> (r: Result<String, RcloneError>)
    ensures
        match run {
            Err(f) => if f.not_found {
                r matches Err(RcloneError::NotInstalled)
            } else {
                r matches Err(RcloneError::InstalledCheckFail(m))
                    && m@ == "Failed to check rclone version: "@ + f.detail@
            },
            Ok(out) => if out.success {
                &&& r matches Ok(v) && v@ == version_line(out.stdout@)
                &&& valid_utf8(out.stdout@) ==> (r matches Ok(v) && v@ == version_line_of(decode_utf8(out.stdout@)))
                &&& out.stdout@.len() == 0 ==> (r matches Ok(v) && v@ == "rclone"@)
            } else {
                r matches Err(RcloneError::NotInstalled)
            },
        },
{
    match run {
        Err(f) => {
            if f.not_found {
                Err(RcloneError::NotInstalled)
            } else {
                let mut m = String::from_str("Failed to check rclone version: ");
                m.append(f.detail.as_str());
                Err(RcloneError::InstalledCheckFail(m))
            }
        },
        Ok(out) => {
            if out.success {
                let text = decode_utf8_lossy(out.stdout.as_slice());
                proof {
                    if out.stdout@.len() == 0 {
                        assert(valid_utf8(out.stdout@));
                        assert(decode_utf8(out.stdout@) =~= Seq::<char>::empty());
                    }
                }
                match first_line_of(text.as_str()) {
                    Some(line) => Ok(line),
                    None => Ok(String::from_str("rclone")),
                }
            } else {
                Err(RcloneError::NotInstalled)
            }
        },
    }
}

/// A call to the daemon's remote control: the method and its parameters.
pub struct RcCall {
    pub method: String,
    pub params: JsonValue,
}

/// Whether `c` is the call `config/listremotes` with no parameters.
pub open spec fn is_list_call(c: RcCall) -> bool {
    &&& c.method@ == "config/listremotes"@
    &&& c.params matches JsonValue::Object(entries) && entries@.len() == 0
}

/// Whether `c` is the call `config/get` for the remote `name`.
pub open spec fn is_config_call(c: RcCall, name: Seq<char>) -> bool {
    &&& c.method@ == "config/get"@
    &&& c.params matches JsonValue::Object(entries) && entries@.len() == 1
        && is_str_member(entries@[0], "name"@, name)
}

/// Where a listing of the remotes stands.
#[derive(Clone, Copy, PartialEq, Eq, Structural, Debug)]
pub enum ListingPhase {
    /// Waiting for the list of remote names.
    AwaitingNames,
    /// Waiting for the config of the next remote.
    AwaitingConfig,
    /// The listing has ended.
    Finished,
}

/// What the caller is to do next in a listing.
pub enum ListingStep {
    /// Make this call and report its reply.
    Call(RcCall),
    /// The listing is over, with this outcome.
    Finish(Result<Vec<RemoteInfo>, RcloneError>),
}

/// A remote as the listing records it: name and type.
pub open spec fn info_view(i: RemoteInfo) -> (Seq<char>, Seq<char>) {
    (i.name@, i.remote_type@)
}

/// The remotes of a list, as name and type.
pub open spec fn infos_view(v: Seq<RemoteInfo>) -> Seq<(Seq<char>, Seq<char>)> {
    v.map_values(|i: RemoteInfo| info_view(i))
}

/// The names of a list of remotes.
pub open spec fn info_names(v: Seq<RemoteInfo>) -> Seq<Seq<char>> {
    v.map_values(|i: RemoteInfo| i.name@)
}

/// Lists all configured remotes with their types, one daemon call at a time:
/// first `config/listremotes` for the names (their trailing `':'` stripped),
/// then `config/get` for each name in turn, whose `type` is recorded.
pub struct RemoteListing {
    names: Vec<String>,
    found: Vec<RemoteInfo>,
    phase: ListingPhase,
}

fn config_call(name: &String) -> (c: RcCall)
    ensures
        is_config_call(c, name@),
{
    let mut entries: Vec<(String, JsonValue)> = Vec::new();
    entries.push(str_member("name", name.clone()));
    RcCall { method: String::from_str("config/get"), params: JsonValue::Object(entries) }
}

impl RemoteListing {
    /// The names the listing works through.
    pub closed spec fn names_spec(&self) -> Seq<Seq<char>> {
        texts(self.names@)
    }

    /// The remotes found so far, as name and type.
    pub closed spec fn found_spec(&self) -> Seq<(Seq<char>, Seq<char>)> {
        infos_view(self.found@)
    }

    /// Where the listing stands.
    pub closed spec fn phase_spec(&self) -> ListingPhase {
        self.phase
    }

    /// The listing's invariant: the remotes found so far are the first names
    /// of the list, in order; while a config is awaited, one name is left.
    pub closed spec fn wf(&self) -> bool {
        &&& self.found@.len() <= self.names@.len()
        &&& forall|k: int| 0 <= k < self.found@.len() ==> #[trigger] self.found@[k].name@ == self.names@[k]@
        &&& self.phase == ListingPhase::AwaitingConfig ==> self.found@.len() < self.names@.len()
        &&& self.phase == ListingPhase::AwaitingNames ==> self.found@.len() == 0
    }

    /// Begins a listing: the first call asks for the remote names.
    pub fn new() -> (r: (RemoteListing, ListingStep))
        ensures
            r.0.wf(),
            r.0.phase_spec() == ListingPhase::AwaitingNames,
            r.0.found_spec().len() == 0,
            r.1 matches ListingStep::Call(c) && is_list_call(c),
    {
        let call = RcCall { method: String::from_str("config/listremotes"), params: JsonValue::Object(Vec::new()) };
        (RemoteListing { names: Vec::new(), found: Vec::new(), phase: ListingPhase::AwaitingNames }, ListingStep::Call(call))
    }

    /// Where the listing stands.
    pub fn phase(&self) -> (p: ListingPhase)
        ensures
            p == self.phase_spec(),
    {
        self.phase
    }

    /// Takes in the reply to the last call and returns the next step. An
    /// error reply to the name listing ends the listing with that error; an
    /// error reply to a config ends it with `Failed to get config for <name>:
    /// <error>`; a reply without the expected field ends it with that.
    pub fn on_reply(&mut self, reply: Result<JsonDoc, RcloneError>) -> (step: ListingStep)
        requires
            old(self).wf(),
            old(self).phase_spec() != ListingPhase::Finished,
        ensures
            final(self).wf(),
            step is Finish <==> final(self).phase_spec() == ListingPhase::Finished,
            step is Call ==> final(self).phase_spec() == ListingPhase::AwaitingConfig,
            step matches ListingStep::Finish(Ok(v)) ==> info_names(v@) == final(self).names_spec(),
            old(self).phase_spec() == ListingPhase::AwaitingNames ==> match reply {
                Err(e) => step == ListingStep::Finish(Err(e)),
                Ok(doc) => match field_trimmed_array(doc.value, "remotes"@) {
                    None => step matches ListingStep::Finish(Err(RcloneError::UnexpectedResponse(m)))
                        && m@ == missing_field_message("remotes"@, "response"@, doc.text@),
                    Some(names) => {
                        &&& final(self).names_spec() == names
                        &&& final(self).found_spec().len() == 0
                        &&& names.len() == 0 ==> (step matches ListingStep::Finish(Ok(v)) && v@.len() == 0)
                        &&& names.len() > 0 ==> (step matches ListingStep::Call(c) && is_config_call(c, names[0]))
                    },
                },
            },
            old(self).phase_spec() == ListingPhase::AwaitingConfig ==> {
                let i = old(self).found_spec().len() as int;
                let name = old(self).names_spec()[i];
                &&& final(self).names_spec() == old(self).names_spec()
                &&& match reply {
                    Err(e) => step matches ListingStep::Finish(Err(RcloneError::RcCallFailed(m)))
                        && m@ == "Failed to get config for "@ + name + ": "@ + rclone_debug(e),
                    Ok(doc) => match field_str(doc.value, "type"@) {
                        None => step matches ListingStep::Finish(Err(RcloneError::UnexpectedResponse(m)))
                            && m@ == missing_field_message("type"@, "response"@, doc.text@),
                        Some(t) => {
                            &&& i + 1 == old(self).names_spec().len() ==> (step matches ListingStep::Finish(Ok(v))
                                && infos_view(v@) == old(self).found_spec().push((name, t)))
                            &&& i + 1 < old(self).names_spec().len() ==> (step matches ListingStep::Call(c)
                                && is_config_call(c, old(self).names_spec()[i + 1])
                                && final(self).found_spec() == old(self).found_spec().push((name, t)))
                        },
                    },
                }
            },
    {
        if self.phase == ListingPhase::AwaitingNames {
            let doc = match reply {
                Err(e) => {
                    self.phase = ListingPhase::Finished;
                    return ListingStep::Finish(Err(e));
                },
                Ok(doc) => doc,
            };
            match get_trimmed_array(&doc, "remotes") {
                Err(e) => {
                    self.phase = ListingPhase::Finished;
                    ListingStep::Finish(Err(e))
                },
                Ok(names) => {
                    self.names = names;
                    if self.names.len() == 0 {
                        self.phase = ListingPhase::Finished;
                        ListingStep::Finish(Ok(Vec::new()))
                    } else {
                        self.phase = ListingPhase::AwaitingConfig;
                        let call = config_call(&self.names[0]);
                        ListingStep::Call(call)
                    }
                },
            }
        } else {
            let i = self.found.len();
            let name = self.names[i].clone();
            let doc = match reply {
                Err(e) => {
                    let mut m = String::from_str("Failed to get config for ");
                    m.append(name.as_str());
                    m.append(": ");
                    let d = e.debug_text();
                    m.append(d.as_str());
                    self.phase = ListingPhase::Finished;
                    return ListingStep::Finish(Err(RcloneError::RcCallFailed(m)));
                },
                Ok(doc) => doc,
            };
            match get_string(&doc, "type") {
                Err(e) => {
                    self.phase = ListingPhase::Finished;
                    ListingStep::Finish(Err(e))
                },
                Ok(t) => {
                    self.found.push(RemoteInfo { name, remote_type: t });
                    assert(infos_view(self.found@) =~= infos_view(old(self).found@).push((name@, t@)));
                    if self.found.len() == self.names.len() {
                        self.phase = ListingPhase::Finished;
                        let mut out: Vec<RemoteInfo> = Vec::new();
                        std::mem::swap(&mut out, &mut self.found);
                        ListingStep::Finish(Ok(out))
                    } else {
                        self.phase = ListingPhase::AwaitingConfig;
                        let call = config_call(&self.names[i + 1]);
                        ListingStep::Call(call)
                    }
                },
            }
        }
    }
}

} // verus!
