//! The tray menu: the status of each remote, kept in name order, the menu
//! entries built from it, and what a click on an entry asks for.
use vstd::prelude::*;
use crate::text::{
    lemma_text_less_irreflexive, lemma_text_less_total, lemma_text_less_transitive, strip_prefix,
    text_eq, text_less, text_lt, without_prefix,
};
use crate::types::{status_text, RemoteEntry, SyncStatus};

verus! {

/// Whether the names of `s` stand in strictly increasing order (so each
/// occurs once).
pub open spec fn sorted_by_name(s: Seq<(String, SyncStatus)>) -> bool {
    forall|i: int, j: int| 0 <= i < j < s.len() ==> text_less(#[trigger] s[i].0@, #[trigger] s[j].0@)
}

/// The status of the first entry named `name`.
pub open spec fn lookup(s: Seq<(String, SyncStatus)>, name: Seq<char>) -> Option<SyncStatus>
    decreases s.len(),
{
    if s.len() == 0 {
        None
    } else if s[0].0@ == name {
        Some(s[0].1)
    } else {
        lookup(s.drop_first(), name)
    }
}

/// The status of the last entry named `name`: what a map built by inserting
/// the entries in order holds for it.
pub open spec fn lookup_last(s: Seq<(String, SyncStatus)>, name: Seq<char>) -> Option<SyncStatus>
    decreases s.len(),
{
    if s.len() == 0 {
        None
    } else if s.last().0@ == name {
        Some(s.last().1)
    } else {
        lookup_last(s.drop_last(), name)
    }
}

proof fn lemma_lookup_at(s: Seq<(String, SyncStatus)>, i: int, name: Seq<char>)
    requires
        0 <= i < s.len(),
        s[i].0@ == name,
        forall|j: int| 0 <= j < i ==> s[j].0@ != name,
    ensures
        lookup(s, name) == Some(s[i].1),
    decreases i,
{
    if i > 0 {
        assert(s[0].0@ != name);
        assert forall|j: int| 0 <= j < i - 1 implies s.drop_first()[j].0@ != name by {
            assert(s.drop_first()[j] == s[j + 1]);
        }
        lemma_lookup_at(s.drop_first(), i - 1, name);
    }
}

proof fn lemma_lookup_absent(s: Seq<(String, SyncStatus)>, name: Seq<char>)
    requires
        forall|j: int| 0 <= j < s.len() ==> s[j].0@ != name,
    ensures
        lookup(s, name) is None,
    decreases s.len(),
{
    if s.len() > 0 {
        assert(s[0].0@ != name);
        assert forall|j: int| 0 <= j < s.len() - 1 implies s.drop_first()[j].0@ != name by {
            assert(s.drop_first()[j] == s[j + 1]);
        }
        lemma_lookup_absent(s.drop_first(), name);
    }
}

/// In a name-sorted list, the status of a name is that of the entry holding
/// it, and there is none where no entry holds it.
proof fn lemma_lookup_sorted(s: Seq<(String, SyncStatus)>, name: Seq<char>)
    requires
        sorted_by_name(s),
    ensures
        forall|i: int| 0 <= i < s.len() && #[trigger] s[i].0@ == name ==> lookup(s, name) == Some(s[i].1),
        (forall|j: int| 0 <= j < s.len() ==> s[j].0@ != name) ==> lookup(s, name) is None,
{
    assert forall|i: int| 0 <= i < s.len() && #[trigger] s[i].0@ == name implies lookup(s, name) == Some(s[i].1) by {
        assert forall|j: int| 0 <= j < i implies s[j].0@ != name by {
            if s[j].0@ == name {
                assert(text_less(s[j].0@, s[i].0@));
                lemma_text_less_irreflexive(name);
            }
        }
        lemma_lookup_at(s, i, name);
    }
    if forall|j: int| 0 <= j < s.len() ==> s[j].0@ != name {
        lemma_lookup_absent(s, name);
    }
}

/// An entry of the tray menu.
pub enum MenuEntry {
    /// The status line of a remote; disabled where the remote is locked.
    Remote { id: String, label: String, enabled: bool },
    /// The line between the remotes and the commands.
    Separator,
    /// A fixed command.
    Command { id: String, label: String },
}

/// What a click on a menu entry asks for.
#[derive(Debug)]
pub enum MenuCommand {
    /// Sync the remote of this name.
    Remote(String),
    /// Show the main window.
    OpenApp,
    /// Quit the application.
    Quit,
    /// Nothing.
    Ignore,
}

/// The id of the menu entry of a remote: `remote::<name>`.
pub open spec fn remote_item_id(name: Seq<char>) -> Seq<char> {
    "remote::"@ + name
}

/// Whether `e` is the menu entry of remote `name` with status `status`.
pub open spec fn is_remote_entry(e: MenuEntry, name: Seq<char>, status: SyncStatus, locked: bool) -> bool {
    e matches MenuEntry::Remote { id, label, enabled } && {
        &&& id@ == remote_item_id(name)
        &&& label@ == remote_item_label(name, status, locked)
        &&& enabled == !locked
    }
}

/// Whether `e` is the command entry `id` labelled `label`.
pub open spec fn is_command_entry(e: MenuEntry, id: Seq<char>, label: Seq<char>) -> bool {
    e matches MenuEntry::Command { id: i, label: l } && i@ == id && l@ == label
}

/// The click on a remote's menu entry asks for that remote: the id of the
/// entry leads back to the name.
pub proof fn lemma_remote_item_id_leads_back(name: Seq<char>)
    ensures
        without_prefix(remote_item_id(name), "remote::"@) == Some(name),
{
    let id = remote_item_id(name);
    assert(id.subrange(0, "remote::"@.len() as int) =~= "remote::"@);
    assert(id.subrange("remote::"@.len() as int, id.len() as int) =~= name);
}

/// The fixed commands are never taken for a remote.
pub proof fn lemma_command_ids_name_no_remote()
    ensures
        without_prefix("open_app"@, "remote::"@) is None,
        without_prefix("quit"@, "remote::"@) is None,
{
    reveal_strlit("open_app");
    reveal_strlit("quit");
    reveal_strlit("remote::");
    assert("open_app"@.subrange(0, 8) != "remote::"@) by {
        assert("open_app"@.subrange(0, 8)[0] != "remote::"@[0]);
    }
}

/// The label of a remote's menu entry: `[L] <name>` where it is locked,
/// else `<name>: <status>`.
pub open spec fn remote_item_label(name: Seq<char>, status: SyncStatus, locked: bool) -> Seq<char> {
    if locked {
        "[L] "@ + name
    } else {
        name + ": "@ + status_text(status)
    }
}

/// Whether the stored config of `name` (its first entry in `configs`) is
/// locked; a remote without config is not.
pub open spec fn locked_in(configs: Seq<(String, RemoteEntry)>, name: Seq<char>) -> bool
    decreases configs.len(),
{
    if configs.len() == 0 {
        false
    } else if configs[0].0@ == name {
        configs[0].1.locked
    } else {
        locked_in(configs.drop_first(), name)
    }
}

/// A remote is locked exactly when the first config of that name has its
/// `locked` flag set; a remote without config is not locked. No other field of
/// a config matters.
pub proof fn lemma_locked_means_locked_flag(configs: Seq<(String, RemoteEntry)>, name: Seq<char>)
    ensures
        forall|i: int| 0 <= i < configs.len() && #[trigger] configs[i].0@ == name
            && (forall|j: int| 0 <= j < i ==> configs[j].0@ != name)
            ==> (locked_in(configs, name) == configs[i].1.locked),
        (forall|j: int| 0 <= j < configs.len() ==> configs[j].0@ != name) ==> !locked_in(configs, name),
    decreases configs.len(),
{
    if configs.len() > 0 {
        let rest = configs.drop_first();
        lemma_locked_means_locked_flag(rest, name);
        assert forall|i: int| 0 <= i < configs.len() && #[trigger] configs[i].0@ == name
            && (forall|j: int| 0 <= j < i ==> configs[j].0@ != name)
            implies (locked_in(configs, name) == configs[i].1.locked) by {
            if i > 0 {
                assert(configs[0].0@ != name);
                assert(rest[i - 1] == configs[i]);
                assert forall|j: int| 0 <= j < i - 1 implies rest[j].0@ != name by {
                    assert(rest[j] == configs[j + 1]);
                }
            }
        }
        if forall|j: int| 0 <= j < configs.len() ==> configs[j].0@ != name {
            assert(configs[0].0@ != name);
            assert forall|j: int| 0 <= j < rest.len() implies rest[j].0@ != name by {
                assert(rest[j] == configs[j + 1]);
            }
        }
    }
}

/// Two config lists that hold the same names and locked flags, in the same
/// order, lock the same remotes.
pub proof fn lemma_locked_ignores_other_fields(a: Seq<(String, RemoteEntry)>, b: Seq<(String, RemoteEntry)>, name: Seq<char>)
    requires
        a.len() == b.len(),
        forall|i: int| 0 <= i < a.len() ==> #[trigger] a[i].0@ == b[i].0@ && a[i].1.locked == b[i].1.locked,
    ensures
        locked_in(a, name) == locked_in(b, name),
    decreases a.len(),
{
    if a.len() > 0 {
        assert(a[0].0@ == b[0].0@ && a[0].1.locked == b[0].1.locked);
        assert forall|i: int| 0 <= i < a.len() - 1 implies #[trigger] a.drop_first()[i].0@ == b.drop_first()[i].0@
            && a.drop_first()[i].1.locked == b.drop_first()[i].1.locked by {
            assert(a[i + 1].0@ == b[i + 1].0@ && a[i + 1].1.locked == b[i + 1].1.locked);
        }
        lemma_locked_ignores_other_fields(a.drop_first(), b.drop_first(), name);
    }
}

/// Whether `configs` marks `name` as locked.
pub fn is_locked(configs: &Vec<(String, RemoteEntry)>, name: &str) -> (b: bool)
    ensures
        b == locked_in(configs@, name@),
{
    let mut i: usize = 0;
    assert(configs@.subrange(0, configs@.len() as int) =~= configs@);
    while i < configs.len()
        invariant
            i <= configs.len(),
            locked_in(configs@, name@) == locked_in(configs@.subrange(i as int, configs@.len() as int), name@),
        decreases configs.len() - i,
    {
        assert(configs@.subrange(i as int, configs@.len() as int).drop_first()
            =~= configs@.subrange(i + 1, configs@.len() as int));
        assert(configs@.subrange(i as int, configs@.len() as int)[0] == configs@[i as int]);
        if text_eq(configs[i].0.as_str(), name) {
            return configs[i].1.locked;
        }
        i = i + 1;
    }
    false
}

/// The status of every remote, in name order, that the tray menu shows.
pub struct TrayManager {
    statuses: Vec<(String, SyncStatus)>,
}

impl TrayManager {
    /// The remotes and their statuses, in name order.
    pub closed spec fn entries(&self) -> Seq<(String, SyncStatus)> {
        self.statuses@
    }

    /// Each remote occurs once, and in name order.
    pub closed spec fn wf(&self) -> bool {
        sorted_by_name(self.statuses@)
    }

    /// The status of remote `name`, if the tray shows it.
    pub open spec fn status_of(&self, name: Seq<char>) -> Option<SyncStatus> {
        lookup(self.entries(), name)
    }

    /// A tray that shows no remote.
    pub fn new() -> (t: TrayManager)
        ensures
            t.wf(),
            sorted_by_name(t.entries()),
            t.entries().len() == 0,
    {
        TrayManager { statuses: Vec::new() }
    }

    /// Sets the status of `name` to `status`, adding the remote in its place
    /// in name order where it is not shown yet.
    fn upsert(&mut self, name: String, status: SyncStatus)
        requires
            old(self).wf(),
        ensures
            final(self).wf(),
            forall|k: Seq<char>| #[trigger] final(self).status_of(k)
                == if k == name@ { Some(status) } else { old(self).status_of(k) },
    {
        let ghost s = self.statuses@;
        let n = self.statuses.len();
        let mut pos: usize = 0;
        while pos < n && text_lt(self.statuses[pos].0.as_str(), name.as_str())
            invariant
                n == self.statuses.len(),
                self.statuses@ == s,
                pos <= n,
                forall|j: int| 0 <= j < pos ==> text_less(#[trigger] s[j].0@, name@),
            decreases n - pos,
        {
            pos = pos + 1;
        }
        proof {
            lemma_lookup_sorted(s, name@);
        }
        if pos < n && text_eq(self.statuses[pos].0.as_str(), name.as_str()) {
            // the name is shown: replace its status
            let ghost t = s.update(pos as int, (name, status));
            self.statuses.set(pos, (name, status));
            proof {
                assert(self.statuses@ == t);
                assert forall|i: int, j: int| 0 <= i < j < t.len() implies text_less(#[trigger] t[i].0@, #[trigger] t[j].0@) by {
                    assert(text_less(s[i].0@, s[j].0@));
                }
                lemma_lookup_sorted(t, name@);
                assert forall|k: Seq<char>| #[trigger] lookup(t, k)
                    == if k == name@ { Some(status) } else { lookup(s, k) } by {
                    lemma_lookup_sorted(t, k);
                    lemma_lookup_sorted(s, k);
                    if k != name@ {
                        if exists|i: int| 0 <= i < s.len() && s[i].0@ == k {
                            let i = choose|i: int| 0 <= i < s.len() && s[i].0@ == k;
                            assert(t[i].0@ == k);
                        } else {
                            assert forall|j: int| 0 <= j < t.len() implies t[j].0@ != k by {
                                if j != pos {
                                    assert(t[j] == s[j]);
                                }
                            }
                        }
                    } else {
                        assert(t[pos as int].0@ == k);
                    }
                }
            }
        } else {
            // the name is new: insert it before the first greater name
            proof {
                if pos < n {
                    lemma_text_less_total(s[pos as int].0@, name@);
                }
            }
            let ghost t = s.insert(pos as int, (name, status));
            self.statuses.insert(pos, (name, status));
            proof {
                assert(self.statuses@ == t);
                assert forall|j: int| 0 <= j < s.len() implies s[j].0@ != name@ by {
                    if j >= pos {
                        if j > pos {
                            assert(text_less(s[pos as int].0@, s[j].0@));
                            if s[j].0@ == name@ {
                                lemma_text_less_transitive(name@, s[pos as int].0@, s[j].0@);
                                lemma_text_less_irreflexive(name@);
                            }
                        }
                    } else {
                        assert(text_less(s[j].0@, name@));
                        if s[j].0@ == name@ {
                            lemma_text_less_irreflexive(name@);
                        }
                    }
                }
                assert forall|i: int, j: int| 0 <= i < j < t.len() implies text_less(#[trigger] t[i].0@, #[trigger] t[j].0@) by {
                    if j < pos {
                        assert(t[i] == s[i] && t[j] == s[j]);
                    } else if j == pos {
                        assert(t[i] == s[i]);
                    } else if i < pos {
                        assert(t[i] == s[i] && t[j] == s[j - 1]);
                        assert(text_less(s[j - 1].0@, name@) || text_less(name@, s[j - 1].0@)) by {
                            lemma_text_less_total(s[j - 1].0@, name@);
                        }
                        if pos < j - 1 {
                            assert(text_less(s[pos as int].0@, s[j - 1].0@));
                            lemma_text_less_transitive(name@, s[pos as int].0@, s[j - 1].0@);
                        }
                        lemma_text_less_transitive(s[i].0@, name@, s[j - 1].0@);
                    } else if i == pos {
                        assert(t[j] == s[j - 1]);
                        if pos < j - 1 {
                            assert(text_less(s[pos as int].0@, s[j - 1].0@));
                            lemma_text_less_transitive(name@, s[pos as int].0@, s[j - 1].0@);
                        }
                    } else {
                        assert(t[i] == s[i - 1] && t[j] == s[j - 1]);
                    }
                }
                assert forall|k: Seq<char>| #[trigger] lookup(t, k)
                    == if k == name@ { Some(status) } else { lookup(s, k) } by {
                    lemma_lookup_sorted(t, k);
                    lemma_lookup_sorted(s, k);
                    if k != name@ {
                        if exists|i: int| 0 <= i < s.len() && s[i].0@ == k {
                            let i = choose|i: int| 0 <= i < s.len() && s[i].0@ == k;
                            if i < pos {
                                assert(t[i] == s[i]);
                            } else {
                                assert(t[i + 1] == s[i]);
                            }
                        } else {
                            assert forall|j: int| 0 <= j < t.len() implies t[j].0@ != k by {
                                if j < pos {
                                    assert(t[j] == s[j]);
                                } else if j > pos {
                                    assert(t[j] == s[j - 1]);
                                }
                            }
                        }
                    } else {
                        assert(t[pos as int].0@ == k);
                    }
                }
            }
        }
    }

    /// Replaces the remotes shown with those of `statuses_in`, in name order;
    /// where a name occurs twice, the later status counts.
    pub fn set_remotes(&mut self, statuses_in: Vec<(String, SyncStatus)>)
        ensures
            final(self).wf(),
            sorted_by_name(final(self).entries()),
            forall|k: Seq<char>| #[trigger] final(self).status_of(k) == lookup_last(statuses_in@, k),
    {
        let ghost input = statuses_in@;
        self.statuses = Vec::new();
        let mut rest = statuses_in;
        let mut i: usize = 0;
        let n = rest.len();
        assert(input.subrange(0, 0) =~= Seq::<(String, SyncStatus)>::empty());
        while rest.len() > 0
            invariant
                self.wf(),
                n == input.len(),
                i + rest.len() == n,
                rest@ == input.subrange(i as int, n as int),
                forall|k: Seq<char>| #[trigger] self.status_of(k) == lookup_last(input.subrange(0, i as int), k),
            decreases rest.len(),
        {
            let e = rest.remove(0);
            proof {
                assert(e == input[i as int]);
                assert(rest@ =~= input.subrange(i + 1, n as int));
                assert(input.subrange(0, i + 1).drop_last() =~= input.subrange(0, i as int));
            }
            self.upsert(e.0, e.1);
            i = i + 1;
        }
        assert(input.subrange(0, n as int) =~= input);
    }

    /// Sets the status of `remote`, where the tray shows it; returns whether
    /// it did, in which case the menu is to be rebuilt. A remote that is not
    /// shown is left out.
    pub fn set_status(&mut self, remote: &str, status: SyncStatus) -> (changed: bool)
        requires
            old(self).wf(),
        ensures
            final(self).wf(),
            sorted_by_name(final(self).entries()),
            changed == old(self).status_of(remote@) is Some,
            forall|k: Seq<char>| #[trigger] final(self).status_of(k) is Some <==> old(self).status_of(k) is Some,
            changed ==> forall|k: Seq<char>| #[trigger] final(self).status_of(k)
                == if k == remote@ { Some(status) } else { old(self).status_of(k) },
            !changed ==> final(self).entries() == old(self).entries(),
    {
        let n = self.statuses.len();
        let mut i: usize = 0;
        while i < n
            invariant
                n == self.statuses.len(),
                self.wf(),
                self.statuses@ == old(self).statuses@,
                i <= n,
                forall|j: int| 0 <= j < i ==> self.statuses@[j].0@ != remote@,
            decreases n - i,
        {
            if text_eq(self.statuses[i].0.as_str(), remote) {
                proof {
                    lemma_lookup_sorted(self.statuses@, remote@);
                }
                let name = self.statuses[i].0.clone();
                self.upsert(name, status);
                return true;
            }
            i = i + 1;
        }
        proof {
            lemma_lookup_sorted(self.statuses@, remote@);
        }
        false
    }

    /// The tray menu: one entry per remote in name order (id
    /// `remote::<name>`, disabled and labelled `[L] <name>` where its config is
    /// locked, else labelled `<name>: <status>`), then a separator, then
    /// "Open App" (`open_app`) and "Quit" (`quit`).
    pub fn build_menu(&self, configs: &Vec<(String, RemoteEntry)>) -> (menu: Vec<MenuEntry>)
        ensures
            menu@.len() == self.entries().len() + 3,
            forall|i: int| 0 <= i < self.entries().len() ==> is_remote_entry(
                #[trigger] menu@[i],
                self.entries()[i].0@,
                self.entries()[i].1,
                locked_in(configs@, self.entries()[i].0@),
            ),
            menu@[self.entries().len() as int] is Separator,
            is_command_entry(menu@[self.entries().len() + 1int], "open_app"@, "Open App"@),
            is_command_entry(menu@[self.entries().len() + 2int], "quit"@, "Quit"@),
    {
        let mut menu: Vec<MenuEntry> = Vec::new();
        let mut i: usize = 0;
        while i < self.statuses.len()
            invariant
                i <= self.statuses.len(),
                menu@.len() == i,
                forall|j: int| 0 <= j < i ==> is_remote_entry(
                    #[trigger] menu@[j],
                    self.statuses@[j].0@,
                    self.statuses@[j].1,
                    locked_in(configs@, self.statuses@[j].0@),
                ),
            decreases self.statuses.len() - i,
        {
            let name = &self.statuses[i].0;
            let locked = is_locked(configs, name.as_str());
            let mut id = String::from_str("remote::");
            id.append(name.as_str());
            let label = if locked {
                let mut l = String::from_str("[L] ");
                l.append(name.as_str());
                l
            } else {
                let mut l = name.clone();
                l.append(": ");
                let st = self.statuses[i].1.to_string();
                l.append(st.as_str());
                l
            };
            menu.push(MenuEntry::Remote { id, label, enabled: !locked });
            i = i + 1;
        }
        menu.push(MenuEntry::Separator);
        menu.push(MenuEntry::Command { id: String::from_str("open_app"), label: String::from_str("Open App") });
        menu.push(MenuEntry::Command { id: String::from_str("quit"), label: String::from_str("Quit") });
        menu
    }

    /// What a click on the menu entry `id` asks for: the remote named after
    /// `remote::`, showing the window for `open_app`, quitting for `quit`, and
    /// nothing for any other id.
    pub fn handle_menu_event(id: &str) -> (c: MenuCommand)
        ensures
            match without_prefix(id@, "remote::"@) {
                Some(name) => c matches MenuCommand::Remote(n) && n@ == name,
                None => if id@ == "open_app"@ {
                    c is OpenApp
                } else if id@ == "quit"@ {
                    c is Quit
                } else {
                    c is Ignore
                },
            },
    {
        match strip_prefix(id, "remote::") {
            Some(name) => MenuCommand::Remote(name),
            None => {
                if text_eq(id, "open_app") {
                    MenuCommand::OpenApp
                } else if text_eq(id, "quit") {
                    MenuCommand::Quit
                } else {
                    MenuCommand::Ignore
                }
            },
        }
    }

    /// Whether a click on remote `remote` is to start a sync: only where its
    /// config is not locked.
    pub fn handle_remote_click(configs: &Vec<(String, RemoteEntry)>, remote: &str) -> (sync: bool)
        ensures
            sync == !locked_in(configs@, remote@),
    {
        !is_locked(configs, remote)
    }
}

} // verus!
