//! The windows that are open, and the workspace and class of each.

use crate::hypr::{Address, HyprClientView, HyprClient};
use vstd::prelude::*;

verus! {

/// What the cache knows of one window.
#[derive(Debug)]
pub struct WindowCacheRecord {
    pub workspace_id: i64,
    pub workspace_name: String,
    pub class: String,
}

/// What a [`WindowCacheRecord`] holds.
pub struct WindowView {
    pub workspace_id: i64,
    pub workspace_name: Seq<char>,
    pub class: Seq<char>,
}

impl View for WindowCacheRecord {
    type V = WindowView;

    open spec fn view(&self) -> WindowView {
        WindowView {
            workspace_id: self.workspace_id,
            workspace_name: self.workspace_name@,
            class: self.class@,
        }
    }
}

#[derive(Debug)]
struct Entry {
    address: Address,
    record: WindowCacheRecord,
}

impl View for Entry {
    type V = (Seq<char>, WindowView);

    closed spec fn view(&self) -> (Seq<char>, WindowView) {
        (self.address@, self.record@)
    }
}

/// The open windows by their address.
#[derive(Debug)]
pub struct WindowCache {
    inner: Vec<Entry>,
}

/// No two of the entries are for the same window.
spec fn distinct(entries: Seq<(Seq<char>, WindowView)>) -> bool {
    forall|i: int, j: int|
        0 <= i < j < entries.len() ==> (#[trigger] entries[i]).0 != (#[trigger] entries[j]).0
}

/// Some entry is for the window at `address`.
spec fn holds(entries: Seq<(Seq<char>, WindowView)>, address: Seq<char>) -> bool {
    exists|i: int| 0 <= i < entries.len() && (#[trigger] entries[i]).0 == address
}

/// The windows that the entries are for.
spec fn contents(entries: Seq<(Seq<char>, WindowView)>) -> Map<Seq<char>, WindowView> {
    Map::new(
        |address: Seq<char>| holds(entries, address),
        |address: Seq<char>|
            {
                let i = choose|i: int|
                    0 <= i < entries.len() && (#[trigger] entries[i]).0 == address;
                entries[i].1
            },
    )
}

/// The addresses of the windows on a workspace, in the order of the entries.
spec fn addresses_on(
    entries: Seq<(Seq<char>, WindowView)>,
    workspace_id: i64,
) -> Seq<Seq<char>>
    decreases entries.len(),
{
    if entries.len() == 0 {
        seq![]
    } else {
        let before = addresses_on(entries.drop_last(), workspace_id);
        if entries.last().1.workspace_id == workspace_id {
            before.push(entries.last().0)
        } else {
            before
        }
    }
}

/// The addresses of the windows on a workspace.
pub open spec fn windows_on(
    windows: Map<Seq<char>, WindowView>,
    workspace_id: i64,
) -> Set<Seq<char>> {
    windows.dom().filter(|address: Seq<char>| windows[address].workspace_id == workspace_id)
}

/// `addresses` goes through the windows on a workspace, each once.
pub open spec fn goes_through(
    windows: Map<Seq<char>, WindowView>,
    workspace_id: i64,
    addresses: Seq<Seq<char>>,
) -> bool {
    &&& addresses.no_duplicates()
    &&& addresses.to_set() == windows_on(windows, workspace_id)
}

/// The class of each of the windows at `addresses`.
pub open spec fn classes_at(
    windows: Map<Seq<char>, WindowView>,
    addresses: Seq<Seq<char>>,
) -> Seq<Seq<char>> {
    addresses.map_values(|address: Seq<char>| windows[address].class)
}

/// `classes` holds the class of each window on a workspace, once for each window, in some order.
pub open spec fn lists_classes(
    windows: Map<Seq<char>, WindowView>,
    workspace_id: i64,
    classes: Seq<Seq<char>>,
) -> bool {
    exists|addresses: Seq<Seq<char>>| #[trigger]
        goes_through(windows, workspace_id, addresses) && classes == classes_at(windows, addresses)
}

/// The windows that a list of windows leaves in an empty cache: of those with the same address,
/// the last.
pub open spec fn windows_listed(clients: Seq<HyprClientView>) -> Map<Seq<char>, WindowView>
    decreases clients.len(),
{
    if clients.len() == 0 {
        Map::empty()
    } else {
        let client = clients.last();
        windows_listed(clients.drop_last()).insert(
            client.address,
            WindowView {
                workspace_id: client.workspace_id as i64,
                workspace_name: client.workspace_name,
                class: client.class,
            },
        )
    }
}

/// The windows that a reply leaves in an empty cache, none where Hyprland could not be asked.
pub open spec fn windows_replied(
    reply: Result<Vec<HyprClient>, String>,
) -> Map<Seq<char>, WindowView> {
    match reply {
        Ok(clients) => windows_listed(clients@.map_values(|client: HyprClient| client@)),
        Err(_) => Map::empty(),
    }
}

/// What the strings hold.
pub open spec fn texts(strings: Seq<String>) -> Seq<Seq<char>> {
    strings.map_values(|string: String| string@)
}

proof fn lemma_contents_at(entries: Seq<(Seq<char>, WindowView)>, i: int)
    requires
        distinct(entries),
        0 <= i < entries.len(),
    ensures
        contents(entries).contains_key(entries[i].0),
        contents(entries)[entries[i].0] == entries[i].1,
{
    let address = entries[i].0;
    assert(holds(entries, address));
    let j = choose|j: int| 0 <= j < entries.len() && (#[trigger] entries[j]).0 == address;
    assert(entries[j].0 == entries[i].0);
}

/// Two lists of entries that hold the same windows have the same contents.
proof fn lemma_contents_match(
    entries: Seq<(Seq<char>, WindowView)>,
    windows: Map<Seq<char>, WindowView>,
)
    requires
        distinct(entries),
        forall|i: int|
            0 <= i < entries.len() ==> windows.contains_key((#[trigger] entries[i]).0)
                && windows[entries[i].0] == entries[i].1,
        forall|address: Seq<char>| #[trigger]
            windows.contains_key(address) ==> holds(entries, address),
    ensures
        contents(entries) == windows,
{
    assert forall|address: Seq<char>| #[trigger] windows.contains_key(address) implies contents(
        entries,
    ).contains_key(address) && contents(entries)[address] == windows[address] by {
        let i = choose|i: int| 0 <= i < entries.len() && (#[trigger] entries[i]).0 == address;
        lemma_contents_at(entries, i);
    }
    assert forall|address: Seq<char>| #[trigger]
        contents(entries).contains_key(address) implies windows.contains_key(address) by {
        let i = choose|i: int| 0 <= i < entries.len() && (#[trigger] entries[i]).0 == address;
    }
    assert(contents(entries) =~= windows);
}

proof fn lemma_push(entries: Seq<(Seq<char>, WindowView)>, address: Seq<char>, window: WindowView)
    requires
        distinct(entries),
        !holds(entries, address),
    ensures
        distinct(entries.push((address, window))),
        contents(entries.push((address, window))) == contents(entries).insert(address, window),
{
    let after = entries.push((address, window));
    let windows = contents(entries).insert(address, window);
    assert forall|i: int| 0 <= i < after.len() implies windows.contains_key(
        (#[trigger] after[i]).0,
    ) && windows[after[i].0] == after[i].1 by {
        if i < entries.len() {
            assert(after[i] == entries[i]);
            lemma_contents_at(entries, i);
        }
    }
    assert forall|other: Seq<char>| #[trigger] windows.contains_key(other) implies holds(
        after,
        other,
    ) by {
        if other == address {
            assert(after[entries.len() as int].0 == other);
        } else {
            let i = choose|i: int| 0 <= i < entries.len() && (#[trigger] entries[i]).0 == other;
            assert(after[i].0 == other);
        }
    }
    lemma_contents_match(after, windows);
}

proof fn lemma_update(entries: Seq<(Seq<char>, WindowView)>, at: int, window: WindowView)
    requires
        distinct(entries),
        0 <= at < entries.len(),
    ensures
        distinct(entries.update(at, (entries[at].0, window))),
        contents(entries.update(at, (entries[at].0, window))) == contents(entries).insert(
            entries[at].0,
            window,
        ),
{
    let address = entries[at].0;
    let after = entries.update(at, (address, window));
    let windows = contents(entries).insert(address, window);
    assert forall|i: int| 0 <= i < after.len() implies windows.contains_key(
        (#[trigger] after[i]).0,
    ) && windows[after[i].0] == after[i].1 by {
        lemma_contents_at(entries, i);
    }
    assert forall|other: Seq<char>| #[trigger] windows.contains_key(other) implies holds(
        after,
        other,
    ) by {
        if other == address {
            assert(after[at].0 == other);
        } else {
            let i = choose|i: int| 0 <= i < entries.len() && (#[trigger] entries[i]).0 == other;
            assert(after[i].0 == other);
        }
    }
    lemma_contents_match(after, windows);
}

proof fn lemma_remove(entries: Seq<(Seq<char>, WindowView)>, at: int)
    requires
        distinct(entries),
        0 <= at < entries.len(),
    ensures
        distinct(entries.remove(at)),
        contents(entries.remove(at)) == contents(entries).remove(entries[at].0),
{
    let address = entries[at].0;
    let after = entries.remove(at);
    let windows = contents(entries).remove(address);
    assert forall|i: int| 0 <= i < after.len() implies windows.contains_key(
        (#[trigger] after[i]).0,
    ) && windows[after[i].0] == after[i].1 by {
        let was = if i < at { i } else { i + 1 };
        assert(after[i] == entries[was]);
        lemma_contents_at(entries, was);
    }
    assert forall|other: Seq<char>| #[trigger] windows.contains_key(other) implies holds(
        after,
        other,
    ) by {
        let i = choose|i: int| 0 <= i < entries.len() && (#[trigger] entries[i]).0 == other;
        let now = if i < at { i } else { i - 1 };
        assert(after[now] == entries[i]);
    }
    lemma_contents_match(after, windows);
}

proof fn lemma_addresses_on(entries: Seq<(Seq<char>, WindowView)>, workspace_id: i64)
    requires
        distinct(entries),
    ensures
        addresses_on(entries, workspace_id).no_duplicates(),
        forall|address: Seq<char>| #[trigger]
            addresses_on(entries, workspace_id).contains(address) <==> exists|i: int|
                0 <= i < entries.len() && (#[trigger] entries[i]).0 == address
                    && entries[i].1.workspace_id == workspace_id,
    decreases entries.len(),
{
    if entries.len() > 0 {
        let before = entries.drop_last();
        let last = entries.last();
        let addresses = addresses_on(before, workspace_id);
        lemma_addresses_on(before, workspace_id);
        assert(forall|i: int| 0 <= i < before.len() ==> #[trigger] before[i] == entries[i]);
        assert(!addresses.contains(last.0));
        let all = addresses_on(entries, workspace_id);
        assert forall|address: Seq<char>| #[trigger] all.contains(address) implies exists|i: int|
            0 <= i < entries.len() && (#[trigger] entries[i]).0 == address
                && entries[i].1.workspace_id == workspace_id by {
            if addresses.contains(address) {
                let i = choose|i: int|
                    0 <= i < before.len() && (#[trigger] before[i]).0 == address
                        && before[i].1.workspace_id == workspace_id;
                assert(entries[i].0 == address);
            } else {
                assert(entries[entries.len() - 1].0 == address);
            }
        }
        assert forall|i: int|
            0 <= i < entries.len() && entries[i].1.workspace_id
                == workspace_id implies all.contains((#[trigger] entries[i]).0) by {
            if i < before.len() {
                assert(before[i].0 == entries[i].0);
                assert(addresses.contains(before[i].0));
                let k = choose|k: int| 0 <= k < addresses.len() && addresses[k] == entries[i].0;
                assert(all[k] == entries[i].0);
            } else {
                assert(all[addresses.len() as int] == entries[i].0);
            }
        }
    }
}

impl WindowCache {
    spec fn entries(self) -> Seq<(Seq<char>, WindowView)> {
        self.inner@.map_values(|entry: Entry| entry@)
    }

    /// Each window is in the cache once.
    #[verifier::type_invariant]
    pub closed spec fn wf(self) -> bool {
        distinct(self.entries())
    }

    /// Position of the entry for the window at `address`, or the number of entries.
    fn position(&self, address: &Address) -> (at: usize)
        ensures
            at <= self.entries().len(),
            at < self.entries().len() ==> self.entries()[at as int].0 == address@,
            at == self.entries().len() ==> !holds(self.entries(), address@),
    {
        let mut at: usize = 0;
        while at < self.inner.len()
            invariant
                at <= self.inner.len(),
                forall|i: int| 0 <= i < at ==> (#[trigger] self.entries()[i]).0 != address@,
            decreases self.inner.len() - at,
        {
            if self.inner[at].address == *address {
                return at;
            }
            at = at + 1;
        }
        at
    }

    /// The classes of the windows on a workspace, in the order in which this cache lists them.
    pub closed spec fn class_listing(self, workspace_id: i64) -> Seq<Seq<char>> {
        classes_at(self@, addresses_on(self.entries(), workspace_id))
    }

    /// Whatever the order, each window on the workspace is listed once, by its class.
    pub proof fn lemma_class_listing(self, workspace_id: i64)
        requires
            self.wf(),
        ensures
            lists_classes(self@, workspace_id, self.class_listing(workspace_id)),
    {
        let entries = self.entries();
        let addresses = addresses_on(entries, workspace_id);
        lemma_addresses_on(entries, workspace_id);
        assert forall|address: Seq<char>| #[trigger]
            addresses.to_set().contains(address) == windows_on(self@, workspace_id).contains(
                address,
            ) by {
            if addresses.contains(address) {
                let i = choose|i: int|
                    0 <= i < entries.len() && (#[trigger] entries[i]).0 == address
                        && entries[i].1.workspace_id == workspace_id;
                lemma_contents_at(entries, i);
            }
            if windows_on(self@, workspace_id).contains(address) {
                let i = choose|i: int| 0 <= i < entries.len() && (#[trigger] entries[i]).0 == address;
                lemma_contents_at(entries, i);
                assert(entries[i].0 == address);
            }
        }
        assert(addresses.to_set() =~= windows_on(self@, workspace_id));
        assert(goes_through(self@, workspace_id, addresses));
    }

    /// Starts from the windows that Hyprland lists, or from none where it could not be asked.
    pub fn new(clients: Result<Vec<HyprClient>, String>) -> (cache: WindowCache)
        ensures
            cache@ == windows_replied(clients),
    {
        let mut cache = WindowCache { inner: Vec::new() };
        assert(cache@ =~= Map::empty());
        if let Ok(clients) = clients {
            let ghost listed = clients@.map_values(|client: HyprClient| client@);
            assert(listed.take(0) =~= seq![]);
            for client in iter: clients.into_iter()
                invariant
                    iter.seq() == clients@,
                    listed == clients@.map_values(|client: HyprClient| client@),
                    cache@ == windows_listed(listed.take(iter.index() as int)),
            {
                proof {
                    let next = listed.take(iter.index() + 1);
                    assert(next.drop_last() =~= listed.take(iter.index() as int));
                    assert(next.last() == client@);
                }
                cache.insert(
                    client.address,
                    client.workspace_id as i64,
                    client.workspace_name,
                    client.class,
                );
            }
            assert(listed.take(listed.len() as int) =~= listed);
        }
        cache
    }

    /// Puts a window into the cache, in place of what the cache knew of it.
    pub fn insert(
        &mut self,
        address: Address,
        workspace_id: i64,
        workspace_name: String,
        class: String,
    )
        ensures
            final(self)@ == old(self)@.insert(
                address@,
                (WindowView { workspace_id, workspace_name: workspace_name@, class: class@ }),
            ),
    {
        proof {
            use_type_invariant(&*self);
        }
        let at = self.position(&address);
        let entry = Entry {
            address,
            record: WindowCacheRecord { workspace_id, workspace_name, class },
        };
        let ghost before = self.entries();
        let ghost window = entry@.1;
        let mut inner: Vec<Entry> = Vec::new();
        std::mem::swap(&mut inner, &mut self.inner);
        if at < inner.len() {
            inner.set(at, entry);
            proof {
                lemma_update(before, at as int, window);
                assert(inner@.map_values(|entry: Entry| entry@) =~= before.update(
                    at as int,
                    (address@, window),
                ));
            }
        } else {
            inner.push(entry);
            proof {
                lemma_push(before, address@, window);
                assert(inner@.map_values(|entry: Entry| entry@) =~= before.push(
                    (address@, window),
                ));
            }
        }
        self.inner = inner;
    }

    /// Takes a window out of the cache, and gives back what the cache knew of it.
    pub fn remove_entry(&mut self, address: &Address) -> (removed: Option<
        (Address, WindowCacheRecord),
    >)
        ensures
            match removed {
                Some((removed_address, record)) => {
                    &&& old(self)@.contains_key(address@)
                    &&& removed_address@ == address@
                    &&& record@ == old(self)@[address@]
                    &&& final(self)@ == old(self)@.remove(address@)
                },
                None => !old(self)@.contains_key(address@) && *final(self) == *old(self),
            },
    {
        proof {
            use_type_invariant(&*self);
        }
        let at = self.position(address);
        if at < self.inner.len() {
            let ghost before = self.entries();
            let mut inner: Vec<Entry> = Vec::new();
            std::mem::swap(&mut inner, &mut self.inner);
            let entry = inner.remove(at);
            proof {
                lemma_contents_at(before, at as int);
                lemma_remove(before, at as int);
                assert(inner@.map_values(|entry: Entry| entry@) =~= before.remove(at as int));
            }
            self.inner = inner;
            Some((entry.address, entry.record))
        } else {
            None
        }
    }

    /// The classes of the windows on a workspace, one for each window.
    pub fn get_classes_for_workspace(&self, workspace_id: i64) -> (classes: Vec<String>)
        ensures
            texts(classes@) == self.class_listing(workspace_id),
            lists_classes(self@, workspace_id, texts(classes@)),
    {
        proof {
            use_type_invariant(self);
            self.lemma_class_listing(workspace_id);
        }
        let ghost entries = self.entries();
        let mut classes: Vec<String> = Vec::new();
        let mut at: usize = 0;
        while at < self.inner.len()
            invariant
                at <= self.inner.len(),
                entries == self.entries(),
                distinct(entries),
                texts(classes@) =~= classes_at(
                    self@,
                    addresses_on(entries.take(at as int), workspace_id),
                ),
            decreases self.inner.len() - at,
        {
            proof {
                let next = entries.take(at + 1);
                assert(next.drop_last() =~= entries.take(at as int));
                assert(next.last() == entries[at as int]);
                lemma_contents_at(entries, at as int);
            }
            let ghost listed = addresses_on(entries.take(at as int), workspace_id);
            let ghost known = classes@;
            let record = &self.inner[at].record;
            assert(record@ == entries[at as int].1);
            if record.workspace_id == workspace_id {
                let class = record.class.clone();
                proof {
                    let address = entries[at as int].0;
                    assert(addresses_on(entries.take(at + 1), workspace_id) == listed.push(address));
                    assert(classes_at(self@, listed.push(address)) =~= classes_at(
                        self@,
                        listed,
                    ).push(class@));
                    assert(texts(known.push(class)) =~= texts(known).push(class@));
                }
                classes.push(class);
            }
            at = at + 1;
        }
        assert(entries.take(at as int) =~= entries);
        classes
    }

    /// Notes that a window has another class. Gives the workspace that the window is on, and the
    /// classes there, where that is news.
    pub fn update_class(&mut self, address: &Address, new_class: String) -> (changed: Option<
        (i64, String, Vec<String>),
    >)
        ensures
            changed is Some <==> old(self)@.contains_key(address@) && old(self)@[address@].class
                != new_class@,
            match changed {
                Some((workspace_id, workspace_name, classes)) => {
                    let window = old(self)@[address@];
                    &&& workspace_id == window.workspace_id
                    &&& workspace_name@ == window.workspace_name
                    &&& final(self)@ == old(self)@.insert(
                        address@,
                        WindowView { class: new_class@, ..window },
                    )
                    &&& texts(classes@) == final(self).class_listing(workspace_id)
                    &&& lists_classes(final(self)@, workspace_id, texts(classes@))
                },
                None => *final(self) == *old(self),
            },
    {
        proof {
            use_type_invariant(&*self);
        }
        let at = self.position(address);
        if at >= self.inner.len() {
            return None;
        }
        proof {
            lemma_contents_at(self.entries(), at as int);
        }
        if self.inner[at].record.class == new_class {
            return None;
        }
        let workspace_id = self.inner[at].record.workspace_id;
        let workspace_name = self.inner[at].record.workspace_name.clone();
        let ghost before = self.entries();
        let mut inner: Vec<Entry> = Vec::new();
        std::mem::swap(&mut inner, &mut self.inner);
        let mut entry = inner.remove(at);
        entry.record.class = new_class;
        let ghost updated = entry@;
        inner.insert(at, entry);
        proof {
            lemma_update(before, at as int, updated.1);
            assert(inner@.map_values(|entry: Entry| entry@) =~= before.update(
                at as int,
                (address@, updated.1),
            ));
        }
        self.inner = inner;
        let classes = self.get_classes_for_workspace(workspace_id);
        Some((workspace_id, workspace_name, classes))
    }
}

impl View for WindowCache {
    type V = Map<Seq<char>, WindowView>;

    closed spec fn view(&self) -> Map<Seq<char>, WindowView> {
        contents(self.entries())
    }
}

} // verus!
