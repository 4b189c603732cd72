//! What one file declares, and the row of the naming table that stores it.

use vstd::prelude::*;

use crate::name_list::{
    chars_of, decode_names, deserialize_names, encode_names, lemma_names_round_trip, names_view,
    serialize_names,
};
use crate::path_codec::{
    mode_from_i64, mode_of_code, mode_to_i64, optional_mode_code, prefix_code, prefix_from_i64,
    prefix_of_code, prefix_to_i64, lemma_mode_round_trip, lemma_prefix_round_trip,
    CorruptRecordError, ModeKind, PrefixKind,
};

verus! {

/// The kind of a declared symbol.
#[derive(Clone, Copy, Debug, PartialEq, Eq, Structural)]
pub enum NameType {
    Fun,
    Class,
    RecordDef,
    Typedef,
    Const,
}

/// A path, as a root and the text of the path below that root.
#[derive(Clone, Debug)]
pub struct RelativePath {
    pub prefix: PrefixKind,
    pub suffix: String,
}

impl RelativePath {
    /// The path `suffix` below the root `prefix`.
    pub fn make(prefix: PrefixKind, suffix: String) -> (r: RelativePath)
        ensures
            r.prefix == prefix,
            r.suffix@ == suffix@,
    {
        RelativePath { prefix, suffix }
    }

    /// The root of the path.
    pub fn prefix(&self) -> (r: PrefixKind)
        ensures
            r == self.prefix,
    {
        self.prefix
    }

    /// The text of the path below its root.
    pub fn path_str(&self) -> (r: &str)
        ensures
            r@ == self.suffix@,
    {
        self.suffix.as_str()
    }
}

/// Where a symbol is declared: a span of a file, or only the file.
#[derive(Clone, Debug)]
pub enum Pos {
    Full { line: u64, start_column: u64, end_column: u64 },
    File(NameType, RelativePath),
}

/// A declared symbol: where it is declared, and its name.
#[derive(Clone, Debug)]
pub struct Id(pub Pos, pub String);

/// The declarations of one file, its checker mode and its declaration
/// fingerprint.
#[derive(Clone, Debug)]
pub struct FileInfo {
    pub hash: Option<String>,
    pub file_mode: Option<ModeKind>,
    pub classes: Vec<Id>,
    pub consts: Vec<Id>,
    pub funs: Vec<Id>,
    pub record_defs: Vec<Id>,
    pub typedefs: Vec<Id>,
}

/// One file to record: its path and what it declares.
#[derive(Clone, Debug)]
pub struct FileInfoItem {
    pub path: RelativePath,
    pub file_info: FileInfo,
}

/// A row of the naming table, as the values bound to its columns.
#[derive(Clone, Debug)]
pub struct FileRow {
    pub path_prefix_type: i64,
    pub path_suffix: String,
    pub type_checker_mode: Option<i64>,
    pub decl_hash: Option<String>,
    pub classes: String,
    pub consts: String,
    pub funs: String,
    pub recs: String,
    pub typedefs: String,
}

/// A row of the naming table read back: the path, mode, fingerprint and the
/// names of each kind of symbol.
#[derive(Clone, Debug)]
pub struct DecodedFile {
    pub prefix: PrefixKind,
    pub suffix: String,
    pub file_mode: Option<ModeKind>,
    pub decl_hash: Option<String>,
    pub classes: Vec<String>,
    pub consts: Vec<String>,
    pub funs: Vec<String>,
    pub record_defs: Vec<String>,
    pub typedefs: Vec<String>,
}

/// A value of a file that the table cannot store: text with a NUL character,
/// which the database's text functions would cut short.
#[derive(Clone, Copy, Debug, PartialEq, Eq, Structural)]
pub enum EncodingError {
    PathSuffix,
    DeclHash,
    SymbolName(NameType),
}

/// Text that holds no NUL character.
pub open spec fn storable(s: Seq<char>) -> bool {
    forall|i: int| 0 <= i < s.len() ==> s[i] != '\0'
}

pub open spec fn opt_storable(o: Option<String>) -> bool {
    match o {
        Some(s) => storable(s@),
        None => true,
    }
}

pub open spec fn opt_view(o: Option<String>) -> Option<Seq<char>> {
    match o {
        Some(s) => Some(s@),
        None => None,
    }
}

/// The names of a list of symbols, in order; positions are left out.
pub open spec fn ids_names(v: Seq<Id>) -> Seq<Seq<char>> {
    v.map_values(|id: Id| id.1@)
}

pub open spec fn ids_storable(v: Seq<Id>) -> bool {
    forall|j: int| 0 <= j < v.len() ==> storable(#[trigger] v[j].1@)
}

/// The first value of `item` that cannot be stored, if any.
pub open spec fn row_error(item: FileInfoItem) -> Option<EncodingError> {
    let f = item.file_info;
    if !storable(item.path.suffix@) {
        Some(EncodingError::PathSuffix)
    } else if !opt_storable(f.hash) {
        Some(EncodingError::DeclHash)
    } else if !ids_storable(f.classes@) {
        Some(EncodingError::SymbolName(NameType::Class))
    } else if !ids_storable(f.consts@) {
        Some(EncodingError::SymbolName(NameType::Const))
    } else if !ids_storable(f.funs@) {
        Some(EncodingError::SymbolName(NameType::Fun))
    } else if !ids_storable(f.record_defs@) {
        Some(EncodingError::SymbolName(NameType::RecordDef))
    } else if !ids_storable(f.typedefs@) {
        Some(EncodingError::SymbolName(NameType::Typedef))
    } else {
        None
    }
}

/// `row` holds the stored form of each value of `item`.
pub open spec fn row_matches(row: FileRow, item: FileInfoItem) -> bool {
    let f = item.file_info;
    &&& row.path_prefix_type == prefix_code(item.path.prefix)
    &&& row.path_suffix@ == item.path.suffix@
    &&& row.type_checker_mode == optional_mode_code(f.file_mode)
    &&& opt_view(row.decl_hash) == opt_view(f.hash)
    &&& row.classes@ == encode_names(ids_names(f.classes@))
    &&& row.consts@ == encode_names(ids_names(f.consts@))
    &&& row.funs@ == encode_names(ids_names(f.funs@))
    &&& row.recs@ == encode_names(ids_names(f.record_defs@))
    &&& row.typedefs@ == encode_names(ids_names(f.typedefs@))
}

/// The first column of `row` that matches no known encoding, if any.
pub open spec fn row_corruption(row: FileRow) -> Option<CorruptRecordError> {
    if prefix_of_code(row.path_prefix_type) is None {
        Some(CorruptRecordError::UnknownPrefix(row.path_prefix_type))
    } else if row.type_checker_mode is Some && mode_of_code(row.type_checker_mode->0) is None {
        Some(CorruptRecordError::UnknownMode(row.type_checker_mode->0))
    } else if decode_names(row.classes@) is None || decode_names(row.consts@) is None
        || decode_names(row.funs@) is None || decode_names(row.recs@) is None
        || decode_names(row.typedefs@) is None {
        Some(CorruptRecordError::MalformedNameList)
    } else {
        None
    }
}

/// `d` holds the decoded value of each column of `row`.
pub open spec fn decoded_matches(d: DecodedFile, row: FileRow) -> bool {
    &&& prefix_of_code(row.path_prefix_type) == Some(d.prefix)
    &&& d.suffix@ == row.path_suffix@
    &&& d.file_mode == match row.type_checker_mode {
        Some(k) => mode_of_code(k),
        None => None,
    }
    &&& opt_view(d.decl_hash) == opt_view(row.decl_hash)
    &&& decode_names(row.classes@) == Some(names_view(d.classes@))
    &&& decode_names(row.consts@) == Some(names_view(d.consts@))
    &&& decode_names(row.funs@) == Some(names_view(d.funs@))
    &&& decode_names(row.recs@) == Some(names_view(d.record_defs@))
    &&& decode_names(row.typedefs@) == Some(names_view(d.typedefs@))
}

/// Whether `s` holds no NUL character.
pub fn is_storable(s: &str) -> (r: bool)
    ensures
        r == storable(s@),
{
    let chars = chars_of(s);
    let mut i: usize = 0;
    while i < chars.len()
        invariant
            0 <= i <= chars.len(),
            chars@ == s@,
            forall|j: int| 0 <= j < i ==> chars@[j] != '\0',
        decreases chars.len() - i,
    {
        if chars[i] == '\0' {
            return false;
        }
        i = i + 1;
    }
    true
}

/// The stored text of the names of `ids`, or `None` where a name cannot be
/// stored.
pub fn ids_to_string(ids: &Vec<Id>) -> (r: Option<String>)
    ensures
        match r {
            Some(t) => ids_storable(ids@) && t@ == encode_names(ids_names(ids@)),
            None => !ids_storable(ids@),
        },
{
    let mut names: Vec<String> = Vec::new();
    let mut i: usize = 0;
    while i < ids.len()
        invariant
            0 <= i <= ids.len(),
            names_view(names@) == ids_names(ids@.subrange(0, i as int)),
            ids_storable(ids@.subrange(0, i as int)),
        decreases ids.len() - i,
    {
        let name = &ids[i].1;
        if !is_storable(name.as_str()) {
            assert(ids@[i as int].1@ == name@);
            return None;
        }
        assert(storable(name@));
        let ghost before = names_view(names@);
        names.push(name.clone());
        proof {
            assert(ids@.subrange(0, i + 1) =~= ids@.subrange(0, i as int).push(ids@[i as int]));
            assert(names_view(names@) =~= before.push(ids@[i as int].1@));
            assert(ids_names(ids@.subrange(0, i + 1)) =~= ids_names(ids@.subrange(0, i as int)).push(
                ids@[i as int].1@,
            ));
            assert forall|j: int| 0 <= j < i + 1 implies storable(
                #[trigger] ids@.subrange(0, i + 1)[j].1@,
            ) by {
                if j < i {
                    assert(ids@.subrange(0, i + 1)[j] == ids@.subrange(0, i as int)[j]);
                    assert(storable(ids@.subrange(0, i as int)[j].1@));
                } else {
                    assert(ids@.subrange(0, i + 1)[j] == ids@[i as int]);
                    assert(ids@[i as int].1@ == name@);
                }
            }
        }
        i = i + 1;
    }
    assert(ids@.subrange(0, i as int) =~= ids@);
    Some(serialize_names(&names))
}

fn opt_is_storable(o: &Option<String>) -> (r: bool)
    ensures
        r == opt_storable(*o),
{
    match o {
        Some(t) => is_storable(t.as_str()),
        None => true,
    }
}

/// The row that stores `item`, or the first of its values that cannot be stored.
pub fn encode_row(item: &FileInfoItem) -> (r: Result<FileRow, EncodingError>)
    ensures
        match r {
            Ok(row) => row_error(*item) is None && row_matches(row, *item),
            Err(e) => row_error(*item) == Some(e),
        },
{
    let f = &item.file_info;
    if !is_storable(item.path.path_str()) {
        return Err(EncodingError::PathSuffix);
    }
    if !opt_is_storable(&f.hash) {
        return Err(EncodingError::DeclHash);
    }
    let classes = match ids_to_string(&f.classes) {
        Some(t) => t,
        None => return Err(EncodingError::SymbolName(NameType::Class)),
    };
    let consts = match ids_to_string(&f.consts) {
        Some(t) => t,
        None => return Err(EncodingError::SymbolName(NameType::Const)),
    };
    let funs = match ids_to_string(&f.funs) {
        Some(t) => t,
        None => return Err(EncodingError::SymbolName(NameType::Fun)),
    };
    let recs = match ids_to_string(&f.record_defs) {
        Some(t) => t,
        None => return Err(EncodingError::SymbolName(NameType::RecordDef)),
    };
    let typedefs = match ids_to_string(&f.typedefs) {
        Some(t) => t,
        None => return Err(EncodingError::SymbolName(NameType::Typedef)),
    };
    Ok(
        FileRow {
            path_prefix_type: prefix_to_i64(item.path.prefix()),
            path_suffix: item.path.suffix.clone(),
            type_checker_mode: mode_to_i64(f.file_mode),
            decl_hash: f.hash.clone(),
            classes,
            consts,
            funs,
            recs,
            typedefs,
        },
    )
}

/// The file that `row` stores, or the first of its columns that matches no known
/// encoding.
pub fn decode_row(row: &FileRow) -> (r: Result<DecodedFile, CorruptRecordError>)
    ensures
        match r {
            Ok(d) => row_corruption(*row) is None && decoded_matches(d, *row),
            Err(e) => row_corruption(*row) == Some(e),
        },
{
    let prefix = match prefix_from_i64(row.path_prefix_type) {
        Ok(p) => p,
        Err(e) => return Err(e),
    };
    let file_mode = match mode_from_i64(row.type_checker_mode) {
        Ok(m) => m,
        Err(e) => return Err(e),
    };
    let classes = match deserialize_names(&row.classes) {
        Ok(v) => v,
        Err(e) => return Err(e),
    };
    let consts = match deserialize_names(&row.consts) {
        Ok(v) => v,
        Err(e) => return Err(e),
    };
    let funs = match deserialize_names(&row.funs) {
        Ok(v) => v,
        Err(e) => return Err(e),
    };
    let record_defs = match deserialize_names(&row.recs) {
        Ok(v) => v,
        Err(e) => return Err(e),
    };
    let typedefs = match deserialize_names(&row.typedefs) {
        Ok(v) => v,
        Err(e) => return Err(e),
    };
    Ok(
        DecodedFile {
            prefix,
            suffix: row.path_suffix.clone(),
            file_mode,
            decl_hash: row.decl_hash.clone(),
            classes,
            consts,
            funs,
            record_defs,
            typedefs,
        },
    )
}

/// A file stored and then read back by its row comes back with the same path,
/// mode and fingerprint, and with the same names of each kind, in the same order.
pub proof fn lemma_row_round_trip(item: FileInfoItem, row: FileRow, d: DecodedFile)
    requires
        row_matches(row, item),
        decoded_matches(d, row),
    ensures
        row_corruption(row) is None,
        d.prefix == item.path.prefix,
        d.suffix@ == item.path.suffix@,
        d.file_mode == item.file_info.file_mode,
        opt_view(d.decl_hash) == opt_view(item.file_info.hash),
        names_view(d.classes@) == ids_names(item.file_info.classes@),
        names_view(d.consts@) == ids_names(item.file_info.consts@),
        names_view(d.funs@) == ids_names(item.file_info.funs@),
        names_view(d.record_defs@) == ids_names(item.file_info.record_defs@),
        names_view(d.typedefs@) == ids_names(item.file_info.typedefs@),
{
    let f = item.file_info;
    lemma_prefix_round_trip(item.path.prefix);
    if let Some(m) = f.file_mode {
        lemma_mode_round_trip(m);
    }
    lemma_names_round_trip(ids_names(f.classes@));
    lemma_names_round_trip(ids_names(f.consts@));
    lemma_names_round_trip(ids_names(f.funs@));
    lemma_names_round_trip(ids_names(f.record_defs@));
    lemma_names_round_trip(ids_names(f.typedefs@));
}

} // verus!
