use vstd::prelude::*;
use vstd::string::*;
use crate::json::{
    field,
    lemma_member_absent,
    lemma_member_at,
    lemma_object_view,
    member,
    members_view,
    parsed_json,
    Json,
    JsonView,
};
use crate::types::canisters::{names_of, Canisters};
use crate::text::str_eq;

verus! {

/// One buildable canister of the project: the package that the compiler is
/// asked for, where its interface file goes, and whatever else the manifest
/// says of it.
#[derive(Debug, PartialEq)]
pub struct RustCanisterCfg {
    pub package: String,
    pub candid_file_path_str: String,
    pub other: Vec<(String, Json)>,
}

/// The mathematical value of a [`RustCanisterCfg`].
pub struct CanisterView {
    pub package: Seq<char>,
    pub candid: Seq<char>,
    pub other: Seq<(Seq<char>, JsonView)>,
}

impl View for RustCanisterCfg {
    type V = CanisterView;

    open spec fn view(&self) -> CanisterView {
        CanisterView {
            package: self.package@,
            candid: self.candid_file_path_str@,
            other: members_view(self.other@),
        }
    }
}

/// Where the interface file of a canister goes when the manifest does not say:
/// `src/<name>/<name>.did`.
pub open spec fn default_candid_path(name: Seq<char>) -> Seq<char> {
    "src/"@ + name + "/"@ + name + ".did"@
}

/// The two members of a manifest entry that a [`RustCanisterCfg`] holds in
/// fields of their own.
pub open spec fn is_fixed_field(name: Seq<char>) -> bool {
    name == "package"@ || name == "candid"@
}

/// The members of a manifest entry that are kept as they are.
pub open spec fn extra_members(members: Seq<(Seq<char>, JsonView)>) -> Seq<(Seq<char>, JsonView)> {
    members.filter(|m: (Seq<char>, JsonView)| !is_fixed_field(m.0))
}

/// The canister that a manifest entry describes: the entry is an object whose
/// `package` and `candid` are strings. Anything else describes none.
pub open spec fn canister_of(entry: JsonView) -> Option<CanisterView> {
    match (field(entry, "package"@), field(entry, "candid"@)) {
        (Some(JsonView::Str(package)), Some(JsonView::Str(candid))) => Some(
            CanisterView { package, candid, other: extra_members(entry->Object_0) },
        ),
        _ => None,
    }
}

impl Clone for RustCanisterCfg {
    fn clone(&self) -> (r: Self)
        ensures
            r@ == self@,
    {
        let mut other: Vec<(String, Json)> = Vec::new();
        let mut i: usize = 0;
        while i < self.other.len()
            invariant
                i <= self.other.len(),
                other@.len() == i,
                forall|k: int|
                    0 <= k < i ==> other@[k].0@ == self.other@[k].0@ && other@[k].1@
                        == self.other@[k].1@,
            decreases self.other.len() - i,
        {
            other.push((self.other[i].0.clone(), self.other[i].1.clone()));
            i += 1;
        }
        assert(members_view(other@) =~= members_view(self.other@));
        RustCanisterCfg {
            package: self.package.clone(),
            candid_file_path_str: self.candid_file_path_str.clone(),
            other,
        }
    }
}

impl RustCanisterCfg {
    /// The canister named `canister_name`, with its interface file at the
    /// default place and nothing else said of it.
    pub fn new(canister_name: &str) -> (r: Self)
        ensures
            r@ == (CanisterView {
                package: canister_name@,
                candid: default_candid_path(canister_name@),
                other: Seq::empty(),
            }),
    {
        let mut path = String::from_str("src/");
        path.append(canister_name);
        path.append("/");
        path.append(canister_name);
        path.append(".did");
        let other: Vec<(String, Json)> = Vec::new();
        assert(members_view(other@) =~= Seq::empty());
        RustCanisterCfg {
            package: String::from_str(canister_name),
            candid_file_path_str: path,
            other,
        }
    }

    /// Reads one entry of the manifest's `canisters` object.
    pub fn from_json(entry: &Json) -> (r: Option<Self>)
        ensures
            match r {
                Some(canister) => canister_of(entry@) == Some(canister@),
                None => canister_of(entry@) is None,
            },
    {
        let package = match entry.get("package") {
            Some(value) => match value.as_str() {
                Some(text) => text,
                None => return None,
            },
            None => return None,
        };
        let candid = match entry.get("candid") {
            Some(value) => match value.as_str() {
                Some(text) => text,
                None => return None,
            },
            None => return None,
        };
        let members = match entry.as_object() {
            Some(members) => members,
            None => return None,
        };
        let ghost all = members_view(members@);
        let mut other: Vec<(String, Json)> = Vec::new();
        let mut i: usize = 0;
        assert(members_view(other@) =~= extra_members(all.take(0))) by {
            reveal(Seq::filter);
        }
        while i < members.len()
            invariant
                i <= members.len(),
                all == members_view(members@),
                members_view(other@) == extra_members(all.take(i as int)),
            decreases members.len() - i,
        {
            let name = members[i].0.as_str();
            if !(str_eq(name, "package") || str_eq(name, "candid")) {
                other.push((members[i].0.clone(), members[i].1.clone()));
            }
            proof {
                let next = all.take(i + 1);
                assert(next.drop_last() =~= all.take(i as int));
                assert(next.last() == all[i as int]);
                reveal(Seq::filter);
            }
            i += 1;
        }
        assert(all.take(members.len() as int) =~= all);
        Some(
            RustCanisterCfg {
                package: String::from_str(package),
                candid_file_path_str: String::from_str(candid),
                other,
            },
        )
    }
}

/// Whether a manifest entry declares the kind of canister that the tool
/// handles: its `type` is the string `rust`.
pub open spec fn is_rust(entry: JsonView) -> bool {
    field(entry, "type"@) == Some(JsonView::Str("rust"@))
}

/// The canister that a manifest entry brings into the registry: the one that
/// it describes, if it declares the kind that the tool handles.
pub open spec fn rust_canister_of(entry: JsonView) -> Option<CanisterView> {
    if is_rust(entry) {
        canister_of(entry)
    } else {
        None
    }
}

/// The registry that the entries of a `canisters` object make. A name is in
/// it where the entry under that name brings a canister.
pub open spec fn registry_of(entries: Seq<(Seq<char>, JsonView)>) -> Map<Seq<char>, CanisterView> {
    Map::new(
        |name: Seq<char>|
            member(entries, name) is Some && rust_canister_of(member(entries, name)->0) is Some,
        |name: Seq<char>| rust_canister_of(member(entries, name)->0)->0,
    )
}

/// Why a JSON document is no manifest.
#[derive(Debug, PartialEq, Eq, Clone, Copy)]
pub enum ManifestFault {
    /// The document is not a JSON object.
    NotAnObject,
    /// The document's `canisters` member is not a JSON object.
    CanistersNotAnObject,
}

/// What a JSON document says as a manifest. A document without `canisters`
/// declares no canister; members under other names are not looked at.
pub open spec fn manifest_of(doc: JsonView) -> Result<Map<Seq<char>, CanisterView>, ManifestFault> {
    match doc {
        JsonView::Object(members) => match member(members, "canisters"@) {
            None => Ok(Map::empty()),
            Some(JsonView::Object(entries)) => Ok(registry_of(entries)),
            Some(_) => Err(ManifestFault::CanistersNotAnObject),
        },
        _ => Err(ManifestFault::NotAnObject),
    }
}

/// Why a text is no manifest.
#[derive(Debug)]
pub enum ManifestError {
    /// The text is no JSON document; the parser's message.
    Syntax(String),
    /// The text is a JSON document of the wrong shape.
    Shape(ManifestFault),
}

/// The project manifest, as far as the tool reads it.
#[derive(Debug)]
pub struct DfxCfg {
    pub canisters: Canisters,
}

/// Whether a manifest entry declares the kind of canister that the tool
/// handles.
pub fn declares_rust(entry: &Json) -> (r: bool)
    ensures
        r == is_rust(entry@),
{
    match entry.get("type") {
        Some(kind) => match kind.as_str() {
            Some(text) => str_eq(text, "rust"),
            None => false,
        },
        None => false,
    }
}

impl DfxCfg {
    /// Reads the manifest from a JSON document. Each entry under `canisters`
    /// that describes a canister of the kind that the tool handles comes into
    /// the registry; every other entry is passed over.
    pub fn from_json(doc: &Json) -> (r: Result<DfxCfg, ManifestFault>)
        ensures
            match r {
                Ok(cfg) => manifest_of(doc@) == Ok::<_, ManifestFault>(cfg.canisters@),
                Err(fault) => manifest_of(doc@) == Err::<Map<Seq<char>, CanisterView>, _>(fault),
            },
    {
        if doc.as_object().is_none() {
            return Err(ManifestFault::NotAnObject);
        }
        let entries = match doc.get("canisters") {
            None => {
                return Ok(DfxCfg { canisters: Canisters::new() });
            },
            Some(value) => match value.as_object() {
                Some(entries) => entries,
                None => {
                    return Err(ManifestFault::CanistersNotAnObject);
                },
            },
        };
        let ghost all = members_view(entries@);
        let mut canisters = Canisters::new();
        let mut i: usize = 0;
        while i < entries.len()
            invariant
                i <= entries.len(),
                all == members_view(entries@),
                canisters@ == registry_of(all.take(i as int)),
            decreases entries.len() - i,
        {
            let name = &entries[i].0;
            let entry = &entries[i].1;
            let accepted = if declares_rust(entry) {
                RustCanisterCfg::from_json(entry)
            } else {
                None
            };
            match accepted {
                Some(canister) => {
                    canisters.insert(name.clone(), canister);
                },
                None => {
                    canisters.remove(name.as_str());
                },
            }
            proof {
                let seen = all.take(i as int);
                let next = all.take(i + 1);
                assert(next.drop_last() =~= seen);
                assert(next.last() == (name@, entry@));
                assert(forall|n: Seq<char>|
                    member(next, n) == (if n == name@ {
                        Some(entry@)
                    } else {
                        member(seen, n)
                    }));
            }
            i += 1;
        }
        assert(all.take(entries.len() as int) =~= all);
        Ok(DfxCfg { canisters })
    }

    /// Reads the manifest from its text.
    pub fn parse(text: &str) -> (r: Result<DfxCfg, ManifestError>)
        ensures
            match r {
                Ok(cfg) => parsed_json(text@) is Some && manifest_of(parsed_json(text@)->0) == Ok::<
                    _,
                    ManifestFault,
                >(cfg.canisters@),
                Err(ManifestError::Syntax(_)) => parsed_json(text@) is None,
                Err(ManifestError::Shape(fault)) => parsed_json(text@) is Some && manifest_of(
                    parsed_json(text@)->0,
                ) == Err::<Map<Seq<char>, CanisterView>, _>(fault),
            },
    {
        match Json::parse(text) {
            Ok(doc) => match DfxCfg::from_json(&doc) {
                Ok(cfg) => Ok(cfg),
                Err(fault) => Err(ManifestError::Shape(fault)),
            },
            Err(error) => Err(ManifestError::Syntax(error.message)),
        }
    }
}

/// An entry that does not declare the kind of canister that the tool handles
/// brings nothing into the registry, however well it describes a canister.
pub proof fn lemma_other_kinds_stay_out(entries: Seq<(Seq<char>, JsonView)>, name: Seq<char>)
    requires
        member(entries, name) is Some,
        !is_rust(member(entries, name)->0),
    ensures
        !registry_of(entries).contains_key(name),
{
}

/// Every canister of a manifest's registry comes from an entry of its
/// `canisters` object that declares the kind that the tool handles.
pub proof fn lemma_registry_holds_rust_only(doc: JsonView, name: Seq<char>)
    requires
        manifest_of(doc) is Ok,
        manifest_of(doc)->Ok_0.contains_key(name),
    ensures
        field(doc, "canisters"@) is Some,
        field(field(doc, "canisters"@)->0, name) is Some,
        is_rust(field(field(doc, "canisters"@)->0, name)->0),
{
}

/// An entry that lacks `package` or `candid`, or holds something other than a
/// string there, describes no canister.
pub proof fn lemma_incomplete_entry_describes_none(entry: JsonView)
    requires
        !(field(entry, "package"@) matches Some(JsonView::Str(_))) || !(field(entry, "candid"@)
            matches Some(JsonView::Str(_))),
    ensures
        canister_of(entry) is None,
        rust_canister_of(entry) is None,
{
}

/// No entry makes a manifest fail: a JSON object whose `canisters` is a JSON
/// object is a manifest whatever the entries hold, and an entry that
/// describes no canister is left out of its registry.
pub proof fn lemma_bad_entries_are_dropped(
    members: Seq<(Seq<char>, JsonView)>,
    entries: Seq<(Seq<char>, JsonView)>,
    name: Seq<char>,
)
    requires
        member(members, "canisters"@) == Some(JsonView::Object(entries)),
    ensures
        manifest_of(JsonView::Object(members)) == Ok::<_, ManifestFault>(registry_of(entries)),
        member(entries, name) is Some && canister_of(member(entries, name)->0) is None
            ==> !registry_of(entries).contains_key(name),
{
}

/// The manifest entry that describes `canister`: its `package`, its `candid`,
/// and then what else the manifest said of it.
pub open spec fn canister_json(canister: CanisterView) -> JsonView {
    JsonView::Object(
        seq![
            ("package"@, JsonView::Str(canister.package)),
            ("candid"@, JsonView::Str(canister.candid)),
        ] + canister.other,
    )
}

/// Whether `doc` is the manifest that declares the canisters of `registry`
/// and nothing else: an object whose one member, `canisters`, is an object with
/// one entry for each canister, under its name.
pub open spec fn declares(doc: JsonView, registry: Map<Seq<char>, CanisterView>) -> bool {
    &&& doc matches JsonView::Object(members)
    &&& members.len() == 1
    &&& members[0].0 == "canisters"@
    &&& members[0].1 matches JsonView::Object(entries)
    &&& entries.len() == registry.len()
    &&& forall|name: Seq<char>|
        member(entries, name) == (if registry.contains_key(name) {
            Some(canister_json(registry[name]))
        } else {
            None
        })
}

impl RustCanisterCfg {
    /// The manifest entry that describes this canister.
    pub fn to_json(&self) -> (r: Json)
        ensures
            r@ == canister_json(self@),
    {
        let mut members: Vec<(String, Json)> = Vec::new();
        members.push((String::from_str("package"), Json::Str(self.package.clone())));
        members.push((String::from_str("candid"), Json::Str(self.candid_file_path_str.clone())));
        let mut i: usize = 0;
        while i < self.other.len()
            invariant
                i <= self.other.len(),
                members@.len() == i + 2,
                members@[0].0@ == "package"@,
                members@[0].1@ == JsonView::Str(self.package@),
                members@[1].0@ == "candid"@,
                members@[1].1@ == JsonView::Str(self.candid_file_path_str@),
                forall|k: int|
                    0 <= k < i ==> members@[k + 2].0@ == self.other@[k].0@ && members@[k + 2].1@
                        == self.other@[k].1@,
            decreases self.other.len() - i,
        {
            members.push((self.other[i].0.clone(), self.other[i].1.clone()));
            i += 1;
        }
        proof {
            lemma_object_view(members);
            assert(members_view(members@) =~= seq![
                ("package"@, JsonView::Str(self.package@)),
                ("candid"@, JsonView::Str(self.candid_file_path_str@)),
            ] + members_view(self.other@));
        }
        Json::Object(members)
    }
}

impl DfxCfg {
    /// The manifest that declares the canisters of the registry and nothing
    /// else.
    pub fn to_json(&self) -> (r: Json)
        ensures
            declares(r@, self.canisters@),
    {
        let canisters = self.canisters.entries();
        let mut entries: Vec<(String, Json)> = Vec::new();
        let mut i: usize = 0;
        while i < canisters.len()
            invariant
                i <= canisters.len(),
                entries@.len() == i,
                forall|k: int|
                    0 <= k < i ==> entries@[k].0@ == canisters@[k].0@ && entries@[k].1@
                        == canister_json(canisters@[k].1@),
            decreases canisters.len() - i,
        {
            entries.push((canisters[i].0.clone(), canisters[i].1.to_json()));
            i += 1;
        }
        let ghost listed = members_view(entries@);
        proof {
            let names = names_of(canisters@);
            assert forall|name: Seq<char>|
                member(listed, name) == (if self.canisters@.contains_key(name) {
                    Some(canister_json(self.canisters@[name]))
                } else {
                    None
                }) by {
                if names.contains(name) {
                    let k = names.index_of(name);
                    assert forall|j: int| k < j < listed.len() implies listed[j].0 != listed[k].0 by {
                        assert(names[j] == listed[j].0);
                    }
                    lemma_member_at(listed, k);
                } else {
                    assert forall|j: int| 0 <= j < listed.len() implies listed[j].0 != name by {
                        assert(names[j] == listed[j].0);
                    }
                    lemma_member_absent(listed, name);
                }
            }
            lemma_object_view(entries);
        }
        let mut members: Vec<(String, Json)> = Vec::new();
        members.push((String::from_str("canisters"), Json::Object(entries)));
        proof {
            lemma_object_view(members);
        }
        Json::Object(members)
    }
}

} // verus!
