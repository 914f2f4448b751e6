//! The data the checks read: the installed manifest, the release that a
//! repository offers, and the snapshot of the registry.

use vstd::prelude::*;
use crate::text::{opt_text, texts};

verus! {

/// The manifest of an installed package.
#[derive(Clone, Debug, PartialEq, Eq)]
pub struct ModManifest {
    /// The identifier that is unique over the whole registry.
    pub unique_name: String,
    /// The version, with or without a leading `v`.
    pub version: String,
    /// The unique names of the mods this one needs, if it declares any.
    pub dependencies: Option<Vec<String>>,
    /// The path of the binary entry, if the manifest names one.
    pub filename: Option<String>,
}

/// The view of a `ModManifest`.
pub struct ManifestView {
    pub unique_name: Seq<char>,
    pub version: Seq<char>,
    pub dependencies: Option<Seq<Seq<char>>>,
    pub filename: Option<Seq<char>>,
}

impl View for ModManifest {
    type V = ManifestView;

    open spec fn view(&self) -> ManifestView {
        ManifestView {
            unique_name: self.unique_name@,
            version: self.version@,
            dependencies: match self.dependencies {
                Some(d) => Some(texts(d@)),
                None => None,
            },
            filename: opt_text(self.filename),
        }
    }
}

/// What installation hands back: the manifest and the sandbox directory the
/// package was unpacked into.
#[derive(Clone, Debug, PartialEq, Eq)]
pub struct LocalPackage {
    pub manifest: ModManifest,
    pub sandbox_path: String,
}

/// One downloadable file of a release.
#[derive(Clone, Debug, PartialEq, Eq)]
pub struct ReleaseAsset {
    pub name: String,
    pub download_url: String,
}

/// The latest release of a repository.
#[derive(Clone, Debug, PartialEq, Eq)]
pub struct ReleaseMetadata {
    /// The tag, with or without a leading `v`.
    pub tag_name: String,
    pub assets: Vec<ReleaseAsset>,
}

/// The view of a `ReleaseMetadata`: the tag, and each asset as its name and
/// its download address.
pub struct ReleaseView {
    pub tag_name: Seq<char>,
    pub assets: Seq<(Seq<char>, Seq<char>)>,
}

/// The assets of a release as pairs of name and download address.
pub open spec fn asset_pairs(v: Seq<ReleaseAsset>) -> Seq<(Seq<char>, Seq<char>)> {
    v.map_values(|a: ReleaseAsset| (a.name@, a.download_url@))
}

impl View for ReleaseMetadata {
    type V = ReleaseView;

    open spec fn view(&self) -> ReleaseView {
        ReleaseView { tag_name: self.tag_name@, assets: asset_pairs(self.assets@) }
    }
}

/// One mod that the registry already holds.
#[derive(Debug, PartialEq, Eq)]
struct RegistryEntry {
    unique_name: String,
    /// The display name.
    name: String,
}

/// The registry as it was fetched once for this run: a mapping from unique
/// names to display names. It is read by the checks and never changed by
/// them. No unique name stands in it twice.
#[derive(Debug, PartialEq, Eq)]
pub struct RegistrySnapshot {
    entries: Vec<RegistryEntry>,
}

/// The index of the first entry at or after `from` whose unique name is
/// `name`.
spec fn find_from(entries: Seq<RegistryEntry>, name: Seq<char>, from: int) -> Option<int>
    decreases entries.len() - from,
{
    if from < 0 || from >= entries.len() {
        None
    } else if entries[from].unique_name@ == name {
        Some(from)
    } else {
        find_from(entries, name, from + 1)
    }
}

/// What a search from `from` on finds: the first entry that carries the
/// name, or nothing where no entry does.
proof fn lemma_find_from(entries: Seq<RegistryEntry>, name: Seq<char>, from: int)
    requires
        0 <= from,
    ensures
        match find_from(entries, name, from) {
            Some(i) => from <= i < entries.len() && entries[i].unique_name@ == name && forall|
                j: int,
            |
                from <= j < i ==> (#[trigger] entries[j]).unique_name@ != name,
            None => forall|j: int|
                from <= j < entries.len() ==> (#[trigger] entries[j]).unique_name@ != name,
        },
    decreases entries.len() - from,
{
    if from < entries.len() && entries[from].unique_name@ != name {
        lemma_find_from(entries, name, from + 1);
    }
}

/// The mapping that a list of entries stands for.
spec fn mapping_of(entries: Seq<RegistryEntry>) -> Map<Seq<char>, Seq<char>> {
    Map::new(
        |k: Seq<char>| find_from(entries, k, 0) is Some,
        |k: Seq<char>| entries[find_from(entries, k, 0)->0].name@,
    )
}

/// What a list of entries stands for once an entry was placed at `p`: in
/// place of the first entry with its unique name, or behind all entries
/// where none had that name.
proof fn lemma_entry_placed(
    before: Seq<RegistryEntry>,
    after: Seq<RegistryEntry>,
    p: int,
    k: Seq<char>,
)
    requires
        0 <= p <= before.len(),
        after.len() == (if p < before.len() {
            before.len()
        } else {
            before.len() + 1
        }),
        forall|j: int| 0 <= j < before.len() && j != p ==> #[trigger] after[j] == before[j],
        forall|j: int| 0 <= j < p ==> (#[trigger] before[j]).unique_name@ != after[p].unique_name@,
        p < before.len() ==> before[p].unique_name@ == after[p].unique_name@,
    ensures
        mapping_of(after).dom().contains(k) == mapping_of(before).insert(
            after[p].unique_name@,
            after[p].name@,
        ).dom().contains(k),
        mapping_of(after).dom().contains(k) ==> mapping_of(after)[k] == mapping_of(before).insert(
            after[p].unique_name@,
            after[p].name@,
        )[k],
{
    lemma_find_from(after, k, 0);
    lemma_find_from(before, k, 0);
    let fa = find_from(after, k, 0);
    let fb = find_from(before, k, 0);
    assert forall|j: int| 0 <= j < before.len() implies (#[trigger] after[j]).unique_name@
        == before[j].unique_name@ by {
        if j != p {
            assert(after[j] == before[j]);
        }
    }
    if fb is Some {
        assert(after[fb->0].unique_name@ == k);
    }
    if fa is Some && fa->0 < before.len() {
        assert(before[fa->0].unique_name@ == k);
    }
    if k == after[p].unique_name@ {
        assert(fa == Some(p));
    } else if fa is Some {
        assert(fa == fb);
        assert(after[fa->0] == before[fa->0]);
    }
}

impl View for RegistrySnapshot {
    type V = Map<Seq<char>, Seq<char>>;

    closed spec fn view(&self) -> Map<Seq<char>, Seq<char>> {
        mapping_of(self.entries@)
    }
}

/// The display name the registry holds for `name`, if it holds one.
pub open spec fn lookup(reg: Map<Seq<char>, Seq<char>>, name: Seq<char>) -> Option<Seq<char>> {
    if reg.dom().contains(name) {
        Some(reg[name])
    } else {
        None
    }
}

/// Whether `name` is a key of the registry.
pub open spec fn has_key(reg: Map<Seq<char>, Seq<char>>, name: Seq<char>) -> bool {
    reg.dom().contains(name)
}

impl RegistrySnapshot {
    /// No unique name stands twice among the entries.
    #[verifier::type_invariant]
    closed spec fn distinct(self) -> bool {
        forall|i: int, j: int|
            0 <= i < j < self.entries@.len() ==> (#[trigger] self.entries@[i]).unique_name@ != (
            #[trigger] self.entries@[j]).unique_name@
    }

    /// A registry that holds nothing.
    pub fn new() -> (r: RegistrySnapshot)
        ensures
            r@ == Map::<Seq<char>, Seq<char>>::empty(),
    {
        let r = RegistrySnapshot { entries: Vec::new() };
        assert(r@ =~= Map::<Seq<char>, Seq<char>>::empty());
        r
    }

    /// Registers `name` under `unique_name`, in place of what stood there.
    pub fn insert(&mut self, unique_name: String, name: String)
        ensures
            final(self)@ == old(self)@.insert(unique_name@, name@),
    {
        proof {
            use_type_invariant(&*self);
        }
        let mut entries: Vec<RegistryEntry> = Vec::new();
        std::mem::swap(&mut entries, &mut self.entries);
        let ghost before = entries@;
        let n: usize = entries.len();
        let mut i: usize = 0;
        while i < n && entries[i].unique_name != unique_name
            invariant
                n == entries@.len(),
                i <= n,
                entries@ == before,
                forall|j: int| 0 <= j < i ==> (#[trigger] before[j]).unique_name@ != unique_name@,
            decreases n - i,
        {
            i += 1;
        }
        let ghost key = unique_name@;
        let ghost value = name@;
        if i < n {
            entries.set(i, RegistryEntry { unique_name, name });
        } else {
            entries.push(RegistryEntry { unique_name, name });
        }
        proof {
            let after = entries@;
            let m = mapping_of(before).insert(key, value);
            assert forall|k: Seq<char>| #[trigger]
                mapping_of(after).dom().contains(k) == m.dom().contains(k) by {
                lemma_entry_placed(before, after, i as int, k);
            }
            assert forall|k: Seq<char>| mapping_of(after).dom().contains(k) implies #[trigger] mapping_of(
                after,
            )[k] == m[k] by {
                lemma_entry_placed(before, after, i as int, k);
            }
            assert(mapping_of(after) =~= m);
        }
        self.entries = entries;
    }

    /// The display name of the mod registered under `unique_name`, if there
    /// is one.
    pub fn get_mod(&self, unique_name: &String) -> (r: Option<&String>)
        ensures
            match r {
                Some(s) => lookup(self@, unique_name@) == Some(s@),
                None => lookup(self@, unique_name@) is None,
            },
    {
        let n: usize = self.entries.len();
        let mut i: usize = 0;
        while i < n
            invariant
                n == self.entries@.len(),
                i <= n,
                find_from(self.entries@, unique_name@, 0) == find_from(
                    self.entries@,
                    unique_name@,
                    i as int,
                ),
            decreases n - i,
        {
            if self.entries[i].unique_name == *unique_name {
                return Some(&self.entries[i].name);
            }
            i += 1;
        }
        None
    }

    /// Whether a mod is registered under `unique_name`.
    pub fn contains_key(&self, unique_name: &String) -> (r: bool)
        ensures
            r == has_key(self@, unique_name@),
    {
        self.get_mod(unique_name).is_some()
    }
}

} // verus!
