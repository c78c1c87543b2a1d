//! Requests, their builders, their argument lists, and the handles that the
//! operations return.
use vstd::prelude::*;

use vstd::utf8::{decode_utf8, valid_utf8};

use crate::props::{
    keys_unique, lemma_option_args_shape, option_args, pairs_map, property_token,
    replaced_or_appended, ZfsProperties,
};
use crate::text::{parse_records, records, trim, trim_output};
use crate::Error;

verus! {

/// Why a builder could not produce its request.
#[derive(Debug)]
#[non_exhaustive]
pub enum ZfsBuilderError {
    /// A required field was never set; its name.
    UninitializedField(&'static str),
    /// A field holds a value that the request does not accept.
    ValidationError(String),
}

impl ZfsBuilderError {
    /// The human-readable description of the error.
    pub fn message(&self) -> (r: String)
        ensures
            r@ == match self {
                ZfsBuilderError::UninitializedField(f) => "field "@ + f@ + " must be initialized"@,
                ZfsBuilderError::ValidationError(s) => "validation error: "@ + s@,
            },
    {
        match self {
            ZfsBuilderError::UninitializedField(f) => {
                let r = String::from_str("field ");
                let r = r.concat(f);
                r.concat(" must be initialized")
            },
            ZfsBuilderError::ValidationError(s) => {
                let r = String::from_str("validation error: ");
                r.concat(s.as_str())
            },
        }
    }
}

impl From<String> for ZfsBuilderError {
    fn from(s: String) -> (r: Self) {
        ZfsBuilderError::ValidationError(s)
    }
}

impl vstd::std_specs::convert::FromSpecImpl<String> for ZfsBuilderError {
    open spec fn obeys_from_spec() -> bool {
        true
    }

    open spec fn from_spec(s: String) -> Self {
        ZfsBuilderError::ValidationError(s)
    }
}

/// A kind of storage object that a listing can be restricted to.
#[derive(Debug, Clone, Copy, PartialEq, Eq, Structural)]
pub enum ListType {
    FileSystem,
    Snapshot,
    Volume,
    Bookmark,
    All,
}

/// The token of each list type on the command line.
pub open spec fn list_type_token(t: ListType) -> Seq<char> {
    match t {
        ListType::FileSystem => "filesystem"@,
        ListType::Snapshot => "snapshot"@,
        ListType::Volume => "volume"@,
        ListType::Bookmark => "bookmark"@,
        ListType::All => "all"@,
    }
}

/// The list type whose token is `s`, if any.
pub open spec fn list_type_of(s: Seq<char>) -> Option<ListType> {
    if s == "filesystem"@ {
        Some(ListType::FileSystem)
    } else if s == "snapshot"@ {
        Some(ListType::Snapshot)
    } else if s == "volume"@ {
        Some(ListType::Volume)
    } else if s == "bookmark"@ {
        Some(ListType::Bookmark)
    } else if s == "all"@ {
        Some(ListType::All)
    } else {
        None
    }
}

impl ListType {
    /// The command-line token of this list type.
    pub fn token(self) -> (r: String)
        ensures
            r@ == list_type_token(self),
    {
        match self {
            ListType::FileSystem => String::from_str("filesystem"),
            ListType::Snapshot => String::from_str("snapshot"),
            ListType::Volume => String::from_str("volume"),
            ListType::Bookmark => String::from_str("bookmark"),
            ListType::All => String::from_str("all"),
        }
    }

    /// Reads a list type from its token.
    pub fn from_token(s: &str) -> (r: Result<ListType, Error>)
        ensures
            match list_type_of(s@) {
                Some(t) => r == Ok::<ListType, Error>(t),
                None => r matches Err(Error::InvalidZfsListType(x)) && x@ == s@,
            },
    {
        let owned = String::from_str(s);
        if owned == String::from_str("filesystem") {
            Ok(ListType::FileSystem)
        } else if owned == String::from_str("snapshot") {
            Ok(ListType::Snapshot)
        } else if owned == String::from_str("volume") {
            Ok(ListType::Volume)
        } else if owned == String::from_str("bookmark") {
            Ok(ListType::Bookmark)
        } else if owned == String::from_str("all") {
            Ok(ListType::All)
        } else {
            Err(Error::InvalidZfsListType(owned))
        }
    }
}

impl std::str::FromStr for ListType {
    type Err = Error;

    fn from_str(s: &str) -> Result<ListType, Error> {
        ListType::from_token(s)
    }
}

/// Converting a list type to its token and back gives the list type again.
pub proof fn list_type_round_trip(t: ListType)
    ensures
        list_type_of(list_type_token(t)) == Some(t),
{
    reveal_strlit("filesystem");
    reveal_strlit("snapshot");
    reveal_strlit("volume");
    reveal_strlit("bookmark");
    reveal_strlit("all");
    // the five tokens already differ in their first character
    assert("filesystem"@[0] == 'f' && "snapshot"@[0] == 's' && "volume"@[0] == 'v'
        && "bookmark"@[0] == 'b' && "all"@[0] == 'a');
}

/// A token that is none of the list types' tokens reads as no list type.
pub proof fn list_type_unknown(s: Seq<char>)
    requires
        forall|t: ListType| list_type_token(t) != s,
    ensures
        list_type_of(s) is None,
{
    assert(list_type_token(ListType::FileSystem) != s);
    assert(list_type_token(ListType::Snapshot) != s);
    assert(list_type_token(ListType::Volume) != s);
    assert(list_type_token(ListType::Bookmark) != s);
    assert(list_type_token(ListType::All) != s);
}


/// The decimal digits of a natural number.
pub open spec fn digits(n: nat) -> Seq<char>
    decreases n,
{
    let d = seq!['0', '1', '2', '3', '4', '5', '6', '7', '8', '9'];
    if n < 10 {
        seq![d[n as int]]
    } else {
        digits(n / 10).push(d[(n % 10) as int])
    }
}

/// An integer in decimal notation, with a leading `-` when it is negative.
pub open spec fn decimal(n: int) -> Seq<char> {
    if n < 0 {
        seq!['-'] + digits((-n) as nat)
    } else {
        digits(n as nat)
    }
}

/// Relies on `i32`'s `to_string`: the decimal notation of the number.
#[verifier::external_body]
fn i32_to_string(n: i32) -> (r: String)
    ensures
        r@ == decimal(n as int),
{
    n.to_string()
}

/// Whether `s` holds the character `c`.
pub fn has_char(s: &str, c: char) -> (r: bool)
    ensures
        r == s@.contains(c),
{
    for x in it: s.chars()
        invariant
            it.seq() == s@,
            forall|j: int| 0 <= j < it.index() ==> s@[j] != c,
    {
        if x == c {
            assert(s@[it.index() as int] == c);
            return true;
        }
    }
    false
}

/// What a create request holds.
pub struct CreateRequestView {
    pub name: Seq<char>,
    pub properties: Seq<(Seq<char>, Seq<char>)>,
    pub recursive: bool,
    pub volsize: Option<Seq<char>>,
    pub blocksize: Option<i32>,
    pub sparse: bool,
}

/// A request to create a dataset, or a volume where a size is given.
#[derive(Debug)]
pub struct CreateRequest {
    name: String,
    properties: ZfsProperties,
    recursive: bool,
    volsize: Option<String>,
    blocksize: Option<i32>,
    sparse: bool,
}

impl View for CreateRequest {
    type V = CreateRequestView;

    closed spec fn view(&self) -> CreateRequestView {
        CreateRequestView {
            name: self.name@,
            properties: self.properties.pairs(),
            recursive: self.recursive,
            volsize: match self.volsize {
                Some(v) => Some(v@),
                None => None,
            },
            blocksize: self.blocksize,
            sparse: self.sparse,
        }
    }
}

/// The arguments of `zfs create` for a request: `-p`, `-s`, `-b <size>`, the
/// property options, `-V <size>`, and the name. The sparse flag and the block
/// size count only where a volume size is given.
pub open spec fn create_args(r: CreateRequestView) -> Seq<Seq<char>> {
    (if r.recursive { seq!["-p"@] } else { seq![] }) + (if r.volsize is Some && r.sparse {
        seq!["-s"@]
    } else {
        seq![]
    }) + (if r.volsize is Some && r.blocksize is Some {
        seq!["-b"@, decimal(r.blocksize->0 as int)]
    } else {
        seq![]
    }) + option_args(r.properties) + (if r.volsize is Some {
        seq!["-V"@, r.volsize->0]
    } else {
        seq![]
    }) + seq![r.name]
}

impl CreateRequest {
    /// The arguments of `zfs create` for this request.
    pub fn to_args(&self) -> (r: Vec<String>)
        ensures
            r.deep_view() == create_args(self@),
    {
        let mut args: Vec<String> = Vec::new();
        if self.recursive {
            args.push(String::from_str("-p"));
        }
        if self.volsize.is_some() {
            if self.sparse {
                args.push(String::from_str("-s"));
            }
            if let Some(b) = self.blocksize {
                args.push(String::from_str("-b"));
                args.push(i32_to_string(b));
            }
        }
        let ghost flags = args.deep_view();
        self.properties.push_option_args(&mut args);
        let ghost with_props = args.deep_view();
        if let Some(v) = &self.volsize {
            args.push(String::from_str("-V"));
            args.push(v.clone());
        }
        let ghost with_size = args.deep_view();
        args.push(self.name.clone());
        proof {
            let r = self@;
            let f = (if r.recursive { seq!["-p"@] } else { seq![] }) + (if r.volsize is Some
                && r.sparse {
                seq!["-s"@]
            } else {
                seq![]
            }) + (if r.volsize is Some && r.blocksize is Some {
                seq!["-b"@, decimal(r.blocksize->0 as int)]
            } else {
                seq![]
            });
            assert(flags =~= f);
            assert(with_size =~= with_props + (if r.volsize is Some {
                seq!["-V"@, r.volsize->0]
            } else {
                seq![]
            }));
            assert(args.deep_view() =~= create_args(r));
        }
        args
    }
}


/// What a create request builder holds so far.
pub struct CreateRequestBuilderView {
    pub name: Option<Seq<char>>,
    pub properties: Seq<(Seq<char>, Seq<char>)>,
    pub recursive: bool,
    pub volsize: Option<Seq<char>>,
    pub blocksize: Option<i32>,
    pub sparse: bool,
}

/// Collects the fields of a [`CreateRequest`].
#[derive(Debug)]
pub struct CreateRequestBuilder {
    name: Option<String>,
    properties: ZfsProperties,
    recursive: bool,
    volsize: Option<String>,
    blocksize: Option<i32>,
    sparse: bool,
}

impl View for CreateRequestBuilder {
    type V = CreateRequestBuilderView;

    closed spec fn view(&self) -> CreateRequestBuilderView {
        CreateRequestBuilderView {
            name: match self.name {
                Some(v) => Some(v@),
                None => None,
            },
            properties: self.properties.pairs(),
            recursive: self.recursive,
            volsize: match self.volsize {
                Some(v) => Some(v@),
                None => None,
            },
            blocksize: self.blocksize,
            sparse: self.sparse,
        }
    }
}

impl Default for CreateRequestBuilder {
    fn default() -> (r: CreateRequestBuilder)
        ensures
            r@ == (CreateRequestBuilderView {
                name: None,
                properties: seq![],
                recursive: false,
                volsize: None,
                blocksize: None,
                sparse: false,
            }),
    {
        CreateRequestBuilder {
            name: None,
            properties: ZfsProperties::new(),
            recursive: false,
            volsize: None,
            blocksize: None,
            sparse: false,
        }
    }
}

impl CreateRequestBuilder {
    /// Sets the name of the dataset or volume.
    pub fn name(&mut self, value: &str) -> (r: &mut Self)
        ensures
            (*r)@ == (CreateRequestBuilderView { name: Some(value@), ..old(self)@ }),
            *final(self) == *final(r),
    {
        self.name = Some(String::from_str(value));
        self
    }

    /// Sets whether missing parent datasets are created too.
    pub fn recursive(&mut self, value: bool) -> (r: &mut Self)
        ensures
            (*r)@ == (CreateRequestBuilderView { recursive: value, ..old(self)@ }),
            *final(self) == *final(r),
    {
        self.recursive = value;
        self
    }

    /// Sets the size of a volume, as the tool reads sizes (`10G`).
    pub fn volsize(&mut self, value: &str) -> (r: &mut Self)
        ensures
            (*r)@ == (CreateRequestBuilderView { volsize: Some(value@), ..old(self)@ }),
            *final(self) == *final(r),
    {
        self.volsize = Some(String::from_str(value));
        self
    }

    /// Sets the block size of a volume.
    pub fn blocksize(&mut self, value: i32) -> (r: &mut Self)
        ensures
            (*r)@ == (CreateRequestBuilderView { blocksize: Some(value), ..old(self)@ }),
            *final(self) == *final(r),
    {
        self.blocksize = Some(value);
        self
    }

    /// Sets whether a volume is created sparse.
    pub fn sparse(&mut self, value: bool) -> (r: &mut Self)
        ensures
            (*r)@ == (CreateRequestBuilderView { sparse: value, ..old(self)@ }),
            *final(self) == *final(r),
    {
        self.sparse = value;
        self
    }

    /// Sets the property `key` to `value`; a later call for the same key wins.
    pub fn add_property(&mut self, key: &str, value: &str) -> (r: &mut Self)
        ensures
            keys_unique(old(self)@.properties),
            keys_unique((*r)@.properties),
            replaced_or_appended(old(self)@.properties, (*r)@.properties, key@, value@),
            pairs_map((*r)@.properties) == pairs_map(old(self)@.properties).insert(key@, value@),
            (*r)@ == (CreateRequestBuilderView { properties: (*r)@.properties, ..old(self)@ }),
            *final(self) == *final(r),
    {
        self.properties.insert(String::from_str(key), String::from_str(value));
        self
    }

    /// Checks the fields against each other: the name must not hold `@`.
    pub fn validate(&self) -> (r: Result<(), String>)
        ensures
            match self@.name {
                Some(n) if n.contains('@') => r matches Err(m) && m@ == "Invalid dataset name"@,
                _ => r is Ok,
            },
    {
        if let Some(name) = &self.name {
            if has_char(name.as_str(), '@') {
                return Err(String::from_str("Invalid dataset name"));
            }
        }
        Ok(())
    }

    /// The request, once the name is set and valid.
    pub fn build(&self) -> (r: Result<CreateRequest, ZfsBuilderError>)
        ensures
            match self@.name {
                None => r matches Err(ZfsBuilderError::UninitializedField(f)) && f@ == "name"@,
                Some(n) => if n.contains('@') {
                    r matches Err(ZfsBuilderError::ValidationError(m)) && m@
                        == "Invalid dataset name"@
                } else {
                    r matches Ok(req) && keys_unique(req@.properties) && req@ == (CreateRequestView {
                        name: n,
                        properties: self@.properties,
                        recursive: self@.recursive,
                        volsize: self@.volsize,
                        blocksize: self@.blocksize,
                        sparse: self@.sparse,
                    })
                },
            },
    {
        let name = match &self.name {
            Some(n) => n.clone(),
            None => {
                return Err(ZfsBuilderError::UninitializedField("name"));
            },
        };
        if let Err(m) = self.validate() {
            return Err(ZfsBuilderError::ValidationError(m));
        }
        Ok(CreateRequest {
            name,
            properties: self.properties.duplicate(),
            recursive: self.recursive,
            volsize: self.volsize.clone(),
            blocksize: self.blocksize,
            sparse: self.sparse,
        })
    }
}


/// The view of an optional string.
pub open spec fn opt_view(o: Option<String>) -> Option<Seq<char>> {
    match o {
        Some(v) => Some(v@),
        None => None,
    }
}

/// What a clone request holds.
pub struct CloneRequestView {
    pub snapshot: Seq<char>,
    pub target: Seq<char>,
    pub create_parents: bool,
    pub properties: Seq<(Seq<char>, Seq<char>)>,
}

/// A request to create a writable dataset from a snapshot.
#[derive(Debug)]
pub struct CloneRequest {
    snapshot: String,
    target: String,
    create_parents: bool,
    properties: ZfsProperties,
}

impl View for CloneRequest {
    type V = CloneRequestView;

    closed spec fn view(&self) -> CloneRequestView {
        CloneRequestView {
            snapshot: self.snapshot@,
            target: self.target@,
            create_parents: self.create_parents,
            properties: self.properties.pairs(),
        }
    }
}

/// The arguments of `zfs clone`: `-p`, the property options, the snapshot
/// and the target.
pub open spec fn clone_args(r: CloneRequestView) -> Seq<Seq<char>> {
    (if r.create_parents { seq!["-p"@] } else { seq![] }) + option_args(r.properties) + seq![
        r.snapshot,
        r.target,
    ]
}

impl CloneRequest {
    /// The arguments of `zfs clone` for this request.
    pub fn to_args(&self) -> (r: Vec<String>)
        ensures
            r.deep_view() == clone_args(self@),
    {
        let mut args: Vec<String> = Vec::new();
        if self.create_parents {
            args.push(String::from_str("-p"));
        }
        let ghost flags = args.deep_view();
        self.properties.push_option_args(&mut args);
        args.push(self.snapshot.clone());
        args.push(self.target.clone());
        proof {
            assert(flags =~= (if self.create_parents { seq!["-p"@] } else { seq![] }));
            assert(args.deep_view() =~= clone_args(self@));
        }
        args
    }
}

/// What a clone request builder holds so far.
pub struct CloneRequestBuilderView {
    pub snapshot: Option<Seq<char>>,
    pub target: Option<Seq<char>>,
    pub create_parents: bool,
    pub properties: Seq<(Seq<char>, Seq<char>)>,
}

/// Collects the fields of a [`CloneRequest`].
#[derive(Debug)]
pub struct CloneRequestBuilder {
    snapshot: Option<String>,
    target: Option<String>,
    create_parents: bool,
    properties: ZfsProperties,
}

impl View for CloneRequestBuilder {
    type V = CloneRequestBuilderView;

    closed spec fn view(&self) -> CloneRequestBuilderView {
        CloneRequestBuilderView {
            snapshot: opt_view(self.snapshot),
            target: opt_view(self.target),
            create_parents: self.create_parents,
            properties: self.properties.pairs(),
        }
    }
}

impl Default for CloneRequestBuilder {
    fn default() -> (r: CloneRequestBuilder)
        ensures
            r@ == (CloneRequestBuilderView {
                snapshot: None,
                target: None,
                create_parents: false,
                properties: seq![],
            }),
    {
        CloneRequestBuilder {
            snapshot: None,
            target: None,
            create_parents: false,
            properties: ZfsProperties::new(),
        }
    }
}

impl CloneRequestBuilder {
    /// Sets the snapshot to clone from.
    pub fn snapshot(&mut self, value: &str) -> (r: &mut Self)
        ensures
            (*r)@ == (CloneRequestBuilderView { snapshot: Some(value@), ..old(self)@ }),
            *final(self) == *final(r),
    {
        self.snapshot = Some(String::from_str(value));
        self
    }

    /// Sets the name of the new dataset.
    pub fn target(&mut self, value: &str) -> (r: &mut Self)
        ensures
            (*r)@ == (CloneRequestBuilderView { target: Some(value@), ..old(self)@ }),
            *final(self) == *final(r),
    {
        self.target = Some(String::from_str(value));
        self
    }

    /// Sets whether missing parents of the target are created.
    pub fn create_parents(&mut self, value: bool) -> (r: &mut Self)
        ensures
            (*r)@ == (CloneRequestBuilderView { create_parents: value, ..old(self)@ }),
            *final(self) == *final(r),
    {
        self.create_parents = value;
        self
    }

    /// Sets the property `key` of the target to `value`; a later call for
    /// the same key wins.
    pub fn add_property(&mut self, key: &str, value: &str) -> (r: &mut Self)
        ensures
            keys_unique(old(self)@.properties),
            keys_unique((*r)@.properties),
            replaced_or_appended(old(self)@.properties, (*r)@.properties, key@, value@),
            pairs_map((*r)@.properties) == pairs_map(old(self)@.properties).insert(key@, value@),
            (*r)@ == (CloneRequestBuilderView { properties: (*r)@.properties, ..old(self)@ }),
            *final(self) == *final(r),
    {
        self.properties.insert(String::from_str(key), String::from_str(value));
        self
    }

    /// Checks the fields against each other: the target must not hold `@`,
    /// the snapshot must.
    pub fn validate(&self) -> (r: Result<(), String>)
        ensures
            match (self@.snapshot, self@.target) {
                (_, Some(t)) if t.contains('@') => r matches Err(m) && m@
                    == "Invalid target name"@,
                (Some(s), _) if !s.contains('@') => r matches Err(m) && m@
                    == "Invalid snapshot name"@,
                _ => r is Ok,
            },
    {
        if let Some(name) = &self.target {
            if has_char(name.as_str(), '@') {
                return Err(String::from_str("Invalid target name"));
            }
        }
        if let Some(name) = &self.snapshot {
            if !has_char(name.as_str(), '@') {
                return Err(String::from_str("Invalid snapshot name"));
            }
        }
        Ok(())
    }

    /// The request, once the snapshot and the target are set and valid.
    pub fn build(&self) -> (r: Result<CloneRequest, ZfsBuilderError>)
        ensures
            match (self@.snapshot, self@.target) {
                (None, _) => r matches Err(ZfsBuilderError::UninitializedField(f)) && f@
                    == "snapshot"@,
                (Some(_), None) => r matches Err(ZfsBuilderError::UninitializedField(f)) && f@
                    == "target"@,
                (Some(s), Some(t)) => if t.contains('@') {
                    r matches Err(ZfsBuilderError::ValidationError(m)) && m@
                        == "Invalid target name"@
                } else if !s.contains('@') {
                    r matches Err(ZfsBuilderError::ValidationError(m)) && m@
                        == "Invalid snapshot name"@
                } else {
                    r matches Ok(req) && keys_unique(req@.properties) && req@ == (CloneRequestView {
                        snapshot: s,
                        target: t,
                        create_parents: self@.create_parents,
                        properties: self@.properties,
                    })
                },
            },
    {
        let snapshot = match &self.snapshot {
            Some(n) => n.clone(),
            None => {
                return Err(ZfsBuilderError::UninitializedField("snapshot"));
            },
        };
        let target = match &self.target {
            Some(n) => n.clone(),
            None => {
                return Err(ZfsBuilderError::UninitializedField("target"));
            },
        };
        if let Err(m) = self.validate() {
            return Err(ZfsBuilderError::ValidationError(m));
        }
        Ok(
            CloneRequest {
                snapshot,
                target,
                create_parents: self.create_parents,
                properties: self.properties.duplicate(),
            },
        )
    }
}

/// What a snapshot request holds.
pub struct SnapshotRequestView {
    pub snapshot: Seq<char>,
    pub recursive: bool,
    pub properties: Seq<(Seq<char>, Seq<char>)>,
}

/// A request to take a snapshot, named `<dataset>@<suffix>`.
#[derive(Debug)]
pub struct SnapshotRequest {
    snapshot: String,
    recursive: bool,
    properties: ZfsProperties,
}

impl View for SnapshotRequest {
    type V = SnapshotRequestView;

    closed spec fn view(&self) -> SnapshotRequestView {
        SnapshotRequestView {
            snapshot: self.snapshot@,
            recursive: self.recursive,
            properties: self.properties.pairs(),
        }
    }
}

/// The arguments of `zfs snapshot`: `-r`, the property options and the name.
pub open spec fn snapshot_args(r: SnapshotRequestView) -> Seq<Seq<char>> {
    (if r.recursive { seq!["-r"@] } else { seq![] }) + option_args(r.properties) + seq![
        r.snapshot,
    ]
}

impl SnapshotRequest {
    /// The arguments of `zfs snapshot` for this request.
    pub fn to_args(&self) -> (r: Vec<String>)
        ensures
            r.deep_view() == snapshot_args(self@),
    {
        let mut args: Vec<String> = Vec::new();
        if self.recursive {
            args.push(String::from_str("-r"));
        }
        let ghost flags = args.deep_view();
        self.properties.push_option_args(&mut args);
        args.push(self.snapshot.clone());
        proof {
            assert(flags =~= (if self.recursive { seq!["-r"@] } else { seq![] }));
            assert(args.deep_view() =~= snapshot_args(self@));
        }
        args
    }
}

/// What a snapshot request builder holds so far.
pub struct SnapshotRequestBuilderView {
    pub snapshot: Option<Seq<char>>,
    pub recursive: bool,
    pub properties: Seq<(Seq<char>, Seq<char>)>,
}

/// Collects the fields of a [`SnapshotRequest`].
#[derive(Debug)]
pub struct SnapshotRequestBuilder {
    snapshot: Option<String>,
    recursive: bool,
    properties: ZfsProperties,
}

impl View for SnapshotRequestBuilder {
    type V = SnapshotRequestBuilderView;

    closed spec fn view(&self) -> SnapshotRequestBuilderView {
        SnapshotRequestBuilderView {
            snapshot: opt_view(self.snapshot),
            recursive: self.recursive,
            properties: self.properties.pairs(),
        }
    }
}

impl Default for SnapshotRequestBuilder {
    fn default() -> (r: SnapshotRequestBuilder)
        ensures
            r@ == (SnapshotRequestBuilderView {
                snapshot: None,
                recursive: false,
                properties: seq![],
            }),
    {
        SnapshotRequestBuilder { snapshot: None, recursive: false, properties: ZfsProperties::new() }
    }
}

impl SnapshotRequestBuilder {
    /// Sets the name of the snapshot.
    pub fn snapshot(&mut self, value: &str) -> (r: &mut Self)
        ensures
            (*r)@ == (SnapshotRequestBuilderView { snapshot: Some(value@), ..old(self)@ }),
            *final(self) == *final(r),
    {
        self.snapshot = Some(String::from_str(value));
        self
    }

    /// Sets whether the child datasets are snapshotted too.
    pub fn recursive(&mut self, value: bool) -> (r: &mut Self)
        ensures
            (*r)@ == (SnapshotRequestBuilderView { recursive: value, ..old(self)@ }),
            *final(self) == *final(r),
    {
        self.recursive = value;
        self
    }

    /// Sets the property `key` of the snapshot to `value`; a later call for
    /// the same key wins.
    pub fn add_property(&mut self, key: &str, value: &str) -> (r: &mut Self)
        ensures
            keys_unique(old(self)@.properties),
            keys_unique((*r)@.properties),
            replaced_or_appended(old(self)@.properties, (*r)@.properties, key@, value@),
            pairs_map((*r)@.properties) == pairs_map(old(self)@.properties).insert(key@, value@),
            (*r)@ == (SnapshotRequestBuilderView { properties: (*r)@.properties, ..old(self)@ }),
            *final(self) == *final(r),
    {
        self.properties.insert(String::from_str(key), String::from_str(value));
        self
    }

    /// Checks the fields: the snapshot name must hold `@`.
    pub fn validate(&self) -> (r: Result<(), String>)
        ensures
            match self@.snapshot {
                Some(n) if !n.contains('@') => r matches Err(m) && m@
                    == "Invalid snapshot name"@,
                _ => r is Ok,
            },
    {
        if let Some(name) = &self.snapshot {
            if !has_char(name.as_str(), '@') {
                return Err(String::from_str("Invalid snapshot name"));
            }
        }
        Ok(())
    }

    /// The request, once the snapshot name is set and valid.
    pub fn build(&self) -> (r: Result<SnapshotRequest, ZfsBuilderError>)
        ensures
            match self@.snapshot {
                None => r matches Err(ZfsBuilderError::UninitializedField(f)) && f@
                    == "snapshot"@,
                Some(n) => if !n.contains('@') {
                    r matches Err(ZfsBuilderError::ValidationError(m)) && m@
                        == "Invalid snapshot name"@
                } else {
                    r matches Ok(req) && keys_unique(req@.properties) && req@ == (SnapshotRequestView {
                        snapshot: n,
                        recursive: self@.recursive,
                        properties: self@.properties,
                    })
                },
            },
    {
        let snapshot = match &self.snapshot {
            Some(n) => n.clone(),
            None => {
                return Err(ZfsBuilderError::UninitializedField("snapshot"));
            },
        };
        if let Err(m) = self.validate() {
            return Err(ZfsBuilderError::ValidationError(m));
        }
        Ok(
            SnapshotRequest {
                snapshot,
                recursive: self.recursive,
                properties: self.properties.duplicate(),
            },
        )
    }
}


/// The tokens of a sequence of list types, joined by commas.
pub open spec fn join_list_types(ts: Seq<ListType>) -> Seq<char>
    decreases ts.len(),
{
    if ts.len() == 0 {
        seq![]
    } else if ts.len() == 1 {
        list_type_token(ts[0])
    } else {
        join_list_types(ts.drop_last()) + ","@ + list_type_token(ts.last())
    }
}

/// The tokens of `ts`, joined by commas.
pub fn join_types(ts: &Vec<ListType>) -> (r: String)
    ensures
        r@ == join_list_types(ts@),
{
    let mut r = String::new();
    let mut i: usize = 0;
    while i < ts.len()
        invariant
            i <= ts@.len(),
            r@ == join_list_types(ts@.take(i as int)),
        decreases ts@.len() - i,
    {
        proof {
            assert(ts@.take(i + 1).drop_last() =~= ts@.take(i as int));
        }
        if i > 0 {
            r.append(",");
        }
        let tok = ts[i].token();
        r.append(tok.as_str());
        proof {
            if i == 0 {
                assert(r@ =~= list_type_token(ts@.take(1)[0]));
            }
        }
        i = i + 1;
    }
    assert(ts@.take(ts@.len() as int) =~= ts@);
    r
}

/// What a list request holds.
pub struct ListRequestView {
    pub root: Option<Seq<char>>,
    pub list_types: Seq<ListType>,
    pub recursion_depth: Option<Seq<char>>,
    pub recursive: bool,
    pub properties: Seq<(Seq<char>, Seq<char>)>,
}

/// A request to list storage objects.
#[derive(Debug)]
pub struct ListRequest {
    root: Option<String>,
    list_types: Vec<ListType>,
    recursion_depth: Option<String>,
    recursive: bool,
    properties: ZfsProperties,
}

impl View for ListRequest {
    type V = ListRequestView;

    closed spec fn view(&self) -> ListRequestView {
        ListRequestView {
            root: opt_view(self.root),
            list_types: self.list_types@,
            recursion_depth: opt_view(self.recursion_depth),
            recursive: self.recursive,
            properties: self.properties.pairs(),
        }
    }
}

/// The arguments of `zfs list`: `-r` with `-d <depth>`, the fixed `-Hp`, the
/// property options, `-t <types>` and the root.
pub open spec fn list_args(r: ListRequestView) -> Seq<Seq<char>> {
    (if r.recursive {
        seq!["-r"@] + (if r.recursion_depth is Some {
            seq!["-d"@, r.recursion_depth->0]
        } else {
            seq![]
        })
    } else {
        seq![]
    }) + seq!["-Hp"@] + option_args(r.properties) + (if r.list_types.len() > 0 {
        seq!["-t"@, join_list_types(r.list_types)]
    } else {
        seq![]
    }) + (if r.root is Some {
        seq![r.root->0]
    } else {
        seq![]
    })
}

impl ListRequest {
    /// The arguments of `zfs list` for this request.
    pub fn to_args(&self) -> (r: Vec<String>)
        ensures
            r.deep_view() == list_args(self@),
    {
        let mut args: Vec<String> = Vec::new();
        if self.recursive {
            args.push(String::from_str("-r"));
            if let Some(depth) = &self.recursion_depth {
                args.push(String::from_str("-d"));
                args.push(depth.clone());
            }
        }
        args.push(String::from_str("-Hp"));
        let ghost flags = args.deep_view();
        self.properties.push_option_args(&mut args);
        let ghost with_props = args.deep_view();
        if self.list_types.len() > 0 {
            args.push(String::from_str("-t"));
            args.push(join_types(&self.list_types));
        }
        let ghost with_types = args.deep_view();
        if let Some(root) = &self.root {
            args.push(root.clone());
        }
        proof {
            let r = self@;
            assert(flags =~= (if r.recursive {
                seq!["-r"@] + (if r.recursion_depth is Some {
                    seq!["-d"@, r.recursion_depth->0]
                } else {
                    seq![]
                })
            } else {
                seq![]
            }) + seq!["-Hp"@]);
            assert(with_types =~= with_props + (if r.list_types.len() > 0 {
                seq!["-t"@, join_list_types(r.list_types)]
            } else {
                seq![]
            }));
            assert(args.deep_view() =~= list_args(r));
        }
        args
    }
}

/// What a list request builder holds so far.
pub struct ListRequestBuilderView {
    pub root: Option<Seq<char>>,
    pub list_types: Seq<ListType>,
    pub recursion_depth: Option<Seq<char>>,
    pub recursive: bool,
    pub properties: Seq<(Seq<char>, Seq<char>)>,
}

/// Collects the fields of a [`ListRequest`]; every field is optional.
#[derive(Debug)]
pub struct ListRequestBuilder {
    root: Option<String>,
    list_types: Vec<ListType>,
    recursion_depth: Option<String>,
    recursive: bool,
    properties: ZfsProperties,
}

impl View for ListRequestBuilder {
    type V = ListRequestBuilderView;

    closed spec fn view(&self) -> ListRequestBuilderView {
        ListRequestBuilderView {
            root: opt_view(self.root),
            list_types: self.list_types@,
            recursion_depth: opt_view(self.recursion_depth),
            recursive: self.recursive,
            properties: self.properties.pairs(),
        }
    }
}

impl Default for ListRequestBuilder {
    fn default() -> (r: ListRequestBuilder)
        ensures
            r@ == (ListRequestBuilderView {
                root: None,
                list_types: seq![],
                recursion_depth: None,
                recursive: false,
                properties: seq![],
            }),
    {
        ListRequestBuilder {
            root: None,
            list_types: Vec::new(),
            recursion_depth: None,
            recursive: false,
            properties: ZfsProperties::new(),
        }
    }
}

impl ListRequestBuilder {
    /// Sets the dataset whose tree is listed.
    pub fn root(&mut self, value: &str) -> (r: &mut Self)
        ensures
            (*r)@ == (ListRequestBuilderView { root: Some(value@), ..old(self)@ }),
            *final(self) == *final(r),
    {
        self.root = Some(String::from_str(value));
        self
    }

    /// Sets how deep a recursive listing goes.
    pub fn recursion_depth(&mut self, value: &str) -> (r: &mut Self)
        ensures
            (*r)@ == (ListRequestBuilderView { recursion_depth: Some(value@), ..old(self)@ }),
            *final(self) == *final(r),
    {
        self.recursion_depth = Some(String::from_str(value));
        self
    }

    /// Sets whether the children are listed too.
    pub fn recursive(&mut self, value: bool) -> (r: &mut Self)
        ensures
            (*r)@ == (ListRequestBuilderView { recursive: value, ..old(self)@ }),
            *final(self) == *final(r),
    {
        self.recursive = value;
        self
    }

    /// Sets the property option `key` to `value`; a later call for the same
    /// key wins.
    pub fn add_property(&mut self, key: &str, value: &str) -> (r: &mut Self)
        ensures
            keys_unique(old(self)@.properties),
            keys_unique((*r)@.properties),
            replaced_or_appended(old(self)@.properties, (*r)@.properties, key@, value@),
            pairs_map((*r)@.properties) == pairs_map(old(self)@.properties).insert(key@, value@),
            (*r)@ == (ListRequestBuilderView { properties: (*r)@.properties, ..old(self)@ }),
            *final(self) == *final(r),
    {
        self.properties.insert(String::from_str(key), String::from_str(value));
        self
    }

    /// Adds a kind of object to list, after those added before.
    pub fn add_list_option(&mut self, opt: ListType) -> (r: &mut Self)
        ensures
            (*r)@ == (ListRequestBuilderView {
                list_types: old(self)@.list_types.push(opt),
                ..old(self)@
            }),
            *final(self) == *final(r),
    {
        self.list_types.push(opt);
        self
    }

    /// The request; a listing needs no field set.
    pub fn build(&self) -> (r: Result<ListRequest, ZfsBuilderError>)
        ensures
            r matches Ok(req) && keys_unique(req@.properties) && req@ == (ListRequestView {
                root: self@.root,
                list_types: self@.list_types,
                recursion_depth: self@.recursion_depth,
                recursive: self@.recursive,
                properties: self@.properties,
            }),
    {
        let mut list_types: Vec<ListType> = Vec::new();
        let mut i: usize = 0;
        while i < self.list_types.len()
            invariant
                i <= self.list_types@.len(),
                list_types@ == self.list_types@.take(i as int),
            decreases self.list_types@.len() - i,
        {
            list_types.push(self.list_types[i]);
            assert(list_types@ =~= self.list_types@.take(i + 1));
            i = i + 1;
        }
        assert(list_types@ =~= self.list_types@);
        Ok(
            ListRequest {
                root: self.root.clone(),
                list_types,
                recursion_depth: self.recursion_depth.clone(),
                recursive: self.recursive,
                properties: self.properties.duplicate(),
            },
        )
    }
}


/// The operations that reach the `zfs` tool.
#[derive(Debug, Clone, Copy, PartialEq, Eq, Structural)]
pub enum ZfsCommand {
    Create,
    Clone,
    Promote,
    List,
    Open,
    SetProperty,
    GetProperty,
    Snapshot,
    Destroy,
}

/// The subcommand of the tool that each operation runs; opening a dataset
/// is a listing.
pub open spec fn subcommand_of(c: ZfsCommand) -> Seq<char> {
    match c {
        ZfsCommand::Create => "create"@,
        ZfsCommand::Clone => "clone"@,
        ZfsCommand::Promote => "promote"@,
        ZfsCommand::List => "list"@,
        ZfsCommand::Open => "list"@,
        ZfsCommand::SetProperty => "set"@,
        ZfsCommand::GetProperty => "get"@,
        ZfsCommand::Snapshot => "snapshot"@,
        ZfsCommand::Destroy => "destroy"@,
    }
}

impl ZfsCommand {
    /// The subcommand of the tool that this operation runs.
    pub fn subcommand(self) -> (r: String)
        ensures
            r@ == subcommand_of(self),
    {
        match self {
            ZfsCommand::Create => String::from_str("create"),
            ZfsCommand::Clone => String::from_str("clone"),
            ZfsCommand::Promote => String::from_str("promote"),
            ZfsCommand::List => String::from_str("list"),
            ZfsCommand::Open => String::from_str("list"),
            ZfsCommand::SetProperty => String::from_str("set"),
            ZfsCommand::GetProperty => String::from_str("get"),
            ZfsCommand::Snapshot => String::from_str("snapshot"),
            ZfsCommand::Destroy => String::from_str("destroy"),
        }
    }
}

/// What one run of the tool produced.
#[derive(Debug)]
pub struct ProcessOutput {
    /// Whether the tool exited with success.
    pub success: bool,
    pub stdout: Vec<u8>,
    pub stderr: Vec<u8>,
}

/// Runs the `zfs` tool. An implementation runs
/// `zfs <cmd.subcommand()> <args>` with the environment cleared and hands
/// back what it produced, or the message of the I/O failure that kept it
/// from running; one for tests hands back scripted outputs.
pub trait ZfsRunner {
    fn run(&mut self, cmd: ZfsCommand, args: &Vec<String>) -> Result<ProcessOutput, String>;
}

/// Relies on `String::from_utf8`: the text that the bytes encode, when they
/// are UTF-8.
#[verifier::external_body]
fn utf8_decode(b: &Vec<u8>) -> (r: Option<String>)
    ensures
        match r {
            Some(s) => valid_utf8(b@) && s@ == decode_utf8(b@),
            None => !valid_utf8(b@),
        },
{
    String::from_utf8(b.clone()).ok()
}

/// What a run's outcome `o` means: the decoded standard output after a
/// success, the decoded standard error as a tool failure otherwise, and a
/// decoding error where the bytes that count are not UTF-8.
pub open spec fn outcome_result(o: Result<ProcessOutput, String>, r: Result<String, Error>) -> bool {
    match o {
        Err(m) => r matches Err(Error::IOError(x)) && x@ == m@,
        Ok(out) => {
            let bytes = if out.success {
                out.stdout@
            } else {
                out.stderr@
            };
            if !valid_utf8(bytes) {
                r matches Err(Error::FromUtf8Error(b)) && b@ == bytes
            } else if out.success {
                r matches Ok(x) && x@ == decode_utf8(bytes)
            } else {
                r matches Err(Error::ZFSError(x)) && x@ == decode_utf8(bytes)
            }
        },
    }
}

/// Whether `r` is what some outcome of a run means.
pub open spec fn from_some_run(r: Result<String, Error>) -> bool {
    exists|o: Result<ProcessOutput, String>| #[trigger] outcome_result(o, r)
}

/// Whether `e` is an error that some outcome of a run means.
pub open spec fn run_error(e: Error) -> bool {
    from_some_run(Err(e))
}

/// The result of a run with outcome `o`.
pub fn interpret_output(o: Result<ProcessOutput, String>) -> (r: Result<String, Error>)
    ensures
        outcome_result(o, r),
{
    match o {
        Err(m) => Err(Error::IOError(m)),
        Ok(out) => {
            let bytes = if out.success {
                &out.stdout
            } else {
                &out.stderr
            };
            match utf8_decode(bytes) {
                None => Err(Error::FromUtf8Error(bytes.clone())),
                Some(text) => if out.success {
                    Ok(text)
                } else {
                    Err(Error::ZFSError(text))
                },
            }
        },
    }
}

/// Runs the tool for `cmd` with `args` and interprets what it produced.
pub fn zfs<R: ZfsRunner>(runner: &mut R, cmd: ZfsCommand, args: Vec<String>) -> (r: Result<
    String,
    Error,
>)
    ensures
        from_some_run(r),
{
    let out = runner.run(cmd, &args);
    let ghost o = out;
    let r = interpret_output(out);
    assert(outcome_result(o, r));
    r
}

/// A handle on a dataset or volume, by name.
#[derive(Debug, Clone)]
pub struct Dataset {
    name: String,
}

impl View for Dataset {
    type V = Seq<char>;

    closed spec fn view(&self) -> Seq<char> {
        self.name@
    }
}

/// A handle on a snapshot, by name.
#[derive(Debug, Clone)]
pub struct Snapshot {
    name: String,
}

impl View for Snapshot {
    type V = Seq<char>;

    closed spec fn view(&self) -> Seq<char> {
        self.name@
    }
}

/// Creates the dataset or volume that `req` describes, running the tool
/// with `req.to_args()`.
pub fn create<R: ZfsRunner>(runner: &mut R, req: &CreateRequest) -> (r: Result<Dataset, Error>)
    ensures
        match r {
            Ok(d) => d@ == req@.name,
            Err(e) => run_error(e),
        },
{
    let args = req.to_args();
    match zfs(runner, ZfsCommand::Create, args) {
        Ok(_) => Ok(Dataset { name: req.name.clone() }),
        Err(e) => Err(e),
    }
}

/// Clones a snapshot as `req` describes, running the tool with
/// `req.to_args()`; the handle is on the target.
pub fn clone<R: ZfsRunner>(runner: &mut R, req: &CloneRequest) -> (r: Result<Dataset, Error>)
    ensures
        match r {
            Ok(d) => d@ == req@.target,
            Err(e) => run_error(e),
        },
{
    let args = req.to_args();
    match zfs(runner, ZfsCommand::Clone, args) {
        Ok(_) => Ok(Dataset { name: req.target.clone() }),
        Err(e) => Err(e),
    }
}

/// Takes the snapshot that `req` describes, running the tool with
/// `req.to_args()`.
pub fn snapshot<R: ZfsRunner>(runner: &mut R, req: &SnapshotRequest) -> (r: Result<
    Snapshot,
    Error,
>)
    ensures
        match r {
            Ok(s) => s@ == req@.snapshot,
            Err(e) => run_error(e),
        },
{
    let args = req.to_args();
    match zfs(runner, ZfsCommand::Snapshot, args) {
        Ok(_) => Ok(Snapshot { name: req.snapshot.clone() }),
        Err(e) => Err(e),
    }
}

/// The arguments that look an object up by name: `-Ho name <name>`.
pub fn open_args(name: &str) -> (r: Vec<String>)
    ensures
        r.deep_view() == seq!["-Ho"@, "name"@, name@],
{
    let r = vec![String::from_str("-Ho"), String::from_str("name"), String::from_str(name)];
    assert(r.deep_view() =~= seq!["-Ho"@, "name"@, name@]);
    r
}

/// A handle on the object whose name the tool printed.
pub fn dataset_from_output(out: &str) -> (r: Dataset)
    ensures
        r@ == trim(out@),
{
    Dataset { name: trim_output(out) }
}

/// Looks up an existing dataset by name, running the tool with
/// `open_args(name)`; the handle holds the name as the tool printed it.
pub fn open<R: ZfsRunner>(runner: &mut R, name: &str) -> (r: Result<Dataset, Error>)
    ensures
        match r {
            Ok(d) => exists|s: String| from_some_run(Ok(s)) && d@ == trim(s@),
            Err(e) => run_error(e),
        },
{
    match zfs(runner, ZfsCommand::Open, open_args(name)) {
        Ok(out) => Ok(dataset_from_output(out.as_str())),
        Err(e) => Err(e),
    }
}

/// Lists storage objects as `req` describes, running the tool with
/// `req.to_args()`; each record is one line's fields.
pub fn list<R: ZfsRunner>(runner: &mut R, req: &ListRequest) -> (r: Result<
    Vec<Vec<String>>,
    Error,
>)
    ensures
        match r {
            Ok(rows) => exists|s: String| from_some_run(Ok(s)) && rows.deep_view() == records(s@),
            Err(e) => run_error(e),
        },
{
    let args = req.to_args();
    match zfs(runner, ZfsCommand::List, args) {
        Ok(out) => Ok(parse_records(out.as_str())),
        Err(e) => Err(e),
    }
}

/// The arguments that read one property of an object:
/// `-H -o value <property> <target>`.
pub fn get_args(target: &str, property: &str) -> (r: Vec<String>)
    ensures
        r.deep_view() == seq!["-H"@, "-o"@, "value"@, property@, target@],
{
    let r = vec![
        String::from_str("-H"),
        String::from_str("-o"),
        String::from_str("value"),
        String::from_str(property),
        String::from_str(target),
    ];
    assert(r.deep_view() =~= seq!["-H"@, "-o"@, "value"@, property@, target@]);
    r
}

/// The arguments that set one property of an object: `<property>=<value>
/// <target>`.
pub fn set_args(target: &str, property: &str, value: &str) -> (r: Vec<String>)
    ensures
        r.deep_view() == seq![property_token((property@, value@)), target@],
{
    let tok = String::from_str(property).concat("=").concat(value);
    let r = vec![tok, String::from_str(target)];
    assert(r.deep_view() =~= seq![property_token((property@, value@)), target@]);
    r
}

/// The arguments of an operation on one object: its name alone.
pub fn name_args(target: &str) -> (r: Vec<String>)
    ensures
        r.deep_view() == seq![target@],
{
    let r = vec![String::from_str(target)];
    assert(r.deep_view() =~= seq![target@]);
    r
}

/// Reads property `property` of `target` with `get_args`; the value as the
/// tool printed it, trimmed.
fn get_property<R: ZfsRunner>(runner: &mut R, target: &str, property: &str) -> (r: Result<
    String,
    Error,
>)
    ensures
        match r {
            Ok(v) => exists|s: String| from_some_run(Ok(s)) && v@ == trim(s@),
            Err(e) => run_error(e),
        },
{
    match zfs(runner, ZfsCommand::GetProperty, get_args(target, property)) {
        Ok(out) => Ok(trim_output(out.as_str())),
        Err(e) => Err(e),
    }
}

/// Sets property `property` of `target` to `value` with `set_args`.
fn set_property<R: ZfsRunner>(runner: &mut R, target: &str, property: &str, value: &str) -> (r:
    Result<(), Error>)
    ensures
        match r {
            Ok(_) => true,
            Err(e) => run_error(e),
        },
{
    match zfs(runner, ZfsCommand::SetProperty, set_args(target, property, value)) {
        Ok(_) => Ok(()),
        Err(e) => Err(e),
    }
}

/// Destroys `target` with `name_args`.
fn destroy_object<R: ZfsRunner>(runner: &mut R, target: &str) -> (r: Result<(), Error>)
    ensures
        match r {
            Ok(_) => true,
            Err(e) => run_error(e),
        },
{
    match zfs(runner, ZfsCommand::Destroy, name_args(target)) {
        Ok(_) => Ok(()),
        Err(e) => Err(e),
    }
}

impl Dataset {
    /// The name of the dataset.
    pub fn name(&self) -> (r: &String)
        ensures
            r@ == self@,
    {
        &self.name
    }

    /// The value of property `name` of this dataset, trimmed.
    pub fn get<R: ZfsRunner>(&self, runner: &mut R, name: &str) -> (r: Result<String, Error>)
        ensures
            match r {
                Ok(v) => exists|s: String| from_some_run(Ok(s)) && v@ == trim(s@),
                Err(e) => run_error(e),
            },
    {
        get_property(runner, self.name.as_str(), name)
    }

    /// Sets property `name` of this dataset to `value`.
    pub fn set<R: ZfsRunner>(&self, runner: &mut R, name: &str, value: &str) -> (r: Result<
        (),
        Error,
    >)
        ensures
            match r {
                Ok(_) => true,
                Err(e) => run_error(e),
            },
    {
        set_property(runner, self.name.as_str(), name, value)
    }

    /// Promotes this clone; the dataset keeps its name.
    pub fn promote<R: ZfsRunner>(&self, runner: &mut R) -> (r: Result<Dataset, Error>)
        ensures
            match r {
                Ok(d) => d@ == self@,
                Err(e) => run_error(e),
            },
    {
        match zfs(runner, ZfsCommand::Promote, name_args(self.name.as_str())) {
            Ok(_) => Ok(Dataset { name: self.name.clone() }),
            Err(e) => Err(e),
        }
    }

    /// Destroys this dataset.
    pub fn destroy<R: ZfsRunner>(&self, runner: &mut R) -> (r: Result<(), Error>)
        ensures
            match r {
                Ok(_) => true,
                Err(e) => run_error(e),
            },
    {
        destroy_object(runner, self.name.as_str())
    }

    /// Takes the snapshot `<name of this dataset>@<name>`.
    pub fn snapshot<R: ZfsRunner>(&self, runner: &mut R, name: &str) -> (r: Result<
        Snapshot,
        Error,
    >)
        ensures
            match r {
                Ok(s) => s@ == self@ + "@"@ + name@,
                Err(e) => run_error(e),
            },
    {
        let full = self.name.clone().concat("@").concat(name);
        proof {
            reveal_strlit("@");
            assert(full@[self@.len() as int] == '@');
        }
        let mut b = SnapshotRequestBuilder::default();
        b.snapshot(full.as_str());
        match b.build() {
            Ok(req) => snapshot(runner, &req),
            Err(e) => Err(Error::ZfsBuilderError(e)),
        }
    }
}

impl Snapshot {
    /// The name of the snapshot.
    pub fn name(&self) -> (r: &String)
        ensures
            r@ == self@,
    {
        &self.name
    }

    /// The value of property `name` of this snapshot, trimmed.
    pub fn get<R: ZfsRunner>(&self, runner: &mut R, name: &str) -> (r: Result<String, Error>)
        ensures
            match r {
                Ok(v) => exists|s: String| from_some_run(Ok(s)) && v@ == trim(s@),
                Err(e) => run_error(e),
            },
    {
        get_property(runner, self.name.as_str(), name)
    }

    /// Sets property `name` of this snapshot to `value`.
    pub fn set<R: ZfsRunner>(&self, runner: &mut R, name: &str, value: &str) -> (r: Result<
        (),
        Error,
    >)
        ensures
            match r {
                Ok(_) => true,
                Err(e) => run_error(e),
            },
    {
        set_property(runner, self.name.as_str(), name, value)
    }

    /// Destroys this snapshot.
    pub fn destroy<R: ZfsRunner>(&self, runner: &mut R) -> (r: Result<(), Error>)
        ensures
            match r {
                Ok(_) => true,
                Err(e) => run_error(e),
            },
    {
        destroy_object(runner, self.name.as_str())
    }
}


/// Without a volume size, the arguments of a create request hold neither the
/// sparse flag nor a block size, whatever those fields say: they are `-p`
/// where asked, the property options and the name.
pub proof fn create_args_without_volsize(r: CreateRequestView)
    requires
        r.volsize is None,
    ensures
        create_args(r) == (if r.recursive { seq!["-p"@] } else { seq![] }) + option_args(
            r.properties,
        ) + seq![r.name],
        forall|i: int|
            0 <= i < create_args(r).len() - 1 ==> #[trigger] create_args(r)[i] != "-s"@
                && create_args(r)[i] != "-b"@,
{
    let flag: Seq<Seq<char>> = if r.recursive { seq!["-p"@] } else { seq![] };
    let a = create_args(r);
    assert(a =~= flag + option_args(r.properties) + seq![r.name]);
    lemma_option_args_shape(r.properties);
    reveal_strlit("-s");
    reveal_strlit("-b");
    reveal_strlit("-o");
    reveal_strlit("-p");
    assert forall|i: int| 0 <= i < a.len() - 1 implies #[trigger] a[i] != "-s"@ && a[i] != "-b"@ by {
        if i < flag.len() {
            assert(a[i] == "-p"@);
            assert("-p"@[1] != "-s"@[1] && "-p"@[1] != "-b"@[1]);
        } else {
            let j = i - flag.len();
            assert(a[i] == option_args(r.properties)[j]);
            if a[i] == "-o"@ {
                assert("-o"@[1] != "-s"@[1] && "-o"@[1] != "-b"@[1]);
            } else {
                assert(!"-s"@.contains('='));
                assert(!"-b"@.contains('='));
            }
        }
    }
}

} // verus!
