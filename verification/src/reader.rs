//! Reading a package's index file: its records, and the checksum of a version.

use vstd::prelude::*;
use crate::error::LookupError;
use crate::json::{json_text_members, parse_json, string_member};
use crate::lines::{record_lines, split_first_line};

verus! {

/// One record of an index file: a released version and its checksum.
#[derive(Clone, Debug, PartialEq, Eq)]
pub struct CrateInfoLine {
    pub vers: String,
    pub cksum: String,
}

/// A record as contracts see it.
pub struct RecordModel {
    pub vers: Seq<char>,
    pub cksum: Seq<char>,
}

impl View for CrateInfoLine {
    type V = RecordModel;

    open spec fn view(&self) -> RecordModel {
        RecordModel { vers: self.vers@, cksum: self.cksum@ }
    }
}

impl DeepView for CrateInfoLine {
    type V = RecordModel;

    open spec fn deep_view(&self) -> RecordModel {
        self@
    }
}

/// What was found at the place of a package's index file.
#[derive(Clone, Debug, PartialEq, Eq)]
pub enum IndexFile {
    /// The file's bytes.
    Content(Vec<u8>),
    /// There is no such file.
    Missing,
    /// The file is there and could not be read.
    Unreadable,
}

/// What was found at the place of an index file, as contracts see it.
pub enum IndexFileModel {
    Content(Seq<u8>),
    Missing,
    Unreadable,
}

impl View for IndexFile {
    type V = IndexFileModel;

    open spec fn view(&self) -> IndexFileModel {
        match self {
            IndexFile::Content(content) => IndexFileModel::Content(content@),
            IndexFile::Missing => IndexFileModel::Missing,
            IndexFile::Unreadable => IndexFileModel::Unreadable,
        }
    }
}

/// The record that a JSON object with the string members `members` stands
/// for: it needs a version under `vers` and a checksum under `cksum`.
pub open spec fn record_of_members(members: Map<Seq<char>, Seq<char>>) -> Option<RecordModel> {
    if members.contains_key("vers"@) && members.contains_key("cksum"@) {
        Some(RecordModel { vers: members["vers"@], cksum: members["cksum"@] })
    } else {
        None
    }
}

/// The record on one line of an index file, or `None` where the line is
/// malformed: not JSON, or without one of the two string members. Which
/// texts are JSON is the parser's to say; of a member that a line gives
/// twice, it keeps the last.
pub open spec fn line_record(line: Seq<u8>) -> Option<RecordModel> {
    match json_text_members(line) {
        Some(members) => record_of_members(members),
        None => None,
    }
}

/// What each line of an index file parses to, in file order.
pub open spec fn file_records(content: Seq<u8>) -> Seq<Option<RecordModel>> {
    record_lines(content).map_values(|line: Seq<u8>| line_record(line))
}

/// The outcome of looking for `version` in parsed lines: the lines are taken
/// in order, and the first one that is malformed or holds `version` decides.
pub open spec fn select(records: Seq<Option<RecordModel>>, version: Seq<char>) -> Result<
    Seq<char>,
    LookupError,
>
    decreases records.len(),
{
    if records.len() == 0 {
        Err(LookupError::VersionNotFound)
    } else {
        match records[0] {
            None => Err(LookupError::MalformedIndexRecord),
            Some(record) => if record.vers == version {
                Ok(record.cksum)
            } else {
                select(records.drop_first(), version)
            },
        }
    }
}

/// A parsed line that the search for `version` passes over: a record of
/// another version.
pub open spec fn passed_over(record: Option<RecordModel>, version: Seq<char>) -> bool {
    record matches Some(r) && r.vers != version
}

/// The first line that is not passed over decides: a malformed one fails the
/// lookup, a record of the version gives its checksum, whatever follows.
pub proof fn lemma_select_first_decides(
    records: Seq<Option<RecordModel>>,
    version: Seq<char>,
    i: int,
)
    requires
        0 <= i < records.len(),
        !passed_over(records[i], version),
        forall|j: int| 0 <= j < i ==> passed_over(records[j], version),
    ensures
        select(records, version) == match records[i] {
            Some(record) => Ok::<Seq<char>, LookupError>(record.cksum),
            None => Err(LookupError::MalformedIndexRecord),
        },
    decreases i,
{
    if i > 0 {
        let rest = records.drop_first();
        assert forall|j: int| 0 <= j < i - 1 implies passed_over(rest[j], version) by {
            assert(rest[j] == records[j + 1]);
        }
        lemma_select_first_decides(rest, version, i - 1);
    }
}

/// Where every line is passed over, the version is not found.
pub proof fn lemma_select_none_decides(records: Seq<Option<RecordModel>>, version: Seq<char>)
    requires
        forall|j: int| 0 <= j < records.len() ==> passed_over(records[j], version),
    ensures
        select(records, version) == Err::<Seq<char>, LookupError>(LookupError::VersionNotFound),
    decreases records.len(),
{
    if records.len() > 0 {
        let rest = records.drop_first();
        assert forall|j: int| 0 <= j < rest.len() implies passed_over(rest[j], version) by {
            assert(rest[j] == records[j + 1]);
        }
        lemma_select_none_decides(rest, version);
    }
}

/// The outcome of looking for `version` in what was found at the place of
/// the index file.
pub open spec fn lookup(file: IndexFileModel, version: Seq<char>) -> Result<
    Seq<char>,
    LookupError,
> {
    match file {
        IndexFileModel::Content(content) => select(file_records(content), version),
        IndexFileModel::Missing => Err(LookupError::IndexFileMissing),
        IndexFileModel::Unreadable => Err(LookupError::InternalIO),
    }
}

/// A lookup result as contracts see it.
pub open spec fn checksum_view(r: Result<String, LookupError>) -> Result<Seq<char>, LookupError> {
    match r {
        Ok(checksum) => Ok(checksum@),
        Err(e) => Err(e),
    }
}

impl CrateInfoLine {
    /// Makes a record of the two members read from a line, if both are there.
    pub fn from_members(vers: Option<String>, cksum: Option<String>) -> (r: Option<CrateInfoLine>)
        ensures
            r.deep_view() == match (vers, cksum) {
                (Some(v), Some(c)) => Some(RecordModel { vers: v@, cksum: c@ }),
                _ => None,
            },
    {
        match (vers, cksum) {
            (Some(vers), Some(cksum)) => Some(CrateInfoLine { vers, cksum }),
            _ => None,
        }
    }
}

/// Parses one line of an index file.
pub fn parse_index_line(line: &[u8]) -> (r: Option<CrateInfoLine>)
    ensures
        r.deep_view() == line_record(line@),
{
    match parse_json(line) {
        Err(_) => None,
        Ok(value) => {
            let vers = string_member(&value, "vers");
            let cksum = string_member(&value, "cksum");
            CrateInfoLine::from_members(vers, cksum)
        },
    }
}

/// Parses every line of an index file that is not empty.
pub fn parse_index_lines(content: &[u8]) -> (records: Vec<Option<CrateInfoLine>>)
    ensures
        records.deep_view() == file_records(content@),
{
    let mut records: Vec<Option<CrateInfoLine>> = Vec::new();
    let mut rest: &[u8] = content;
    assert(records.deep_view() =~= Seq::empty());
    while rest.len() > 0
        invariant
            file_records(content@) == records.deep_view() + file_records(rest@),
        decreases rest@.len(),
    {
        let (line, tail) = split_first_line(rest);
        let ghost before = records.deep_view();
        if line.len() > 0 {
            let record = parse_index_line(line);
            records.push(record);
            assert(records.deep_view() =~= before.push(line_record(line@)));
            assert(file_records(rest@) =~= seq![line_record(line@)] + file_records(tail@));
        }
        assert(file_records(content@) =~= records.deep_view() + file_records(tail@));
        rest = tail;
    }
    assert(file_records(rest@) =~= Seq::empty());
    records
}

/// Looks for `version` in parsed lines.
pub fn select_checksum(records: &Vec<Option<CrateInfoLine>>, version: &str) -> (r: Result<
    String,
    LookupError,
>)
    ensures
        checksum_view(r) == select(records.deep_view(), version@),
{
    let wanted = version.to_owned();
    let n: usize = records.len();
    let mut i: usize = 0;
    assert(records.deep_view().skip(0) =~= records.deep_view());
    while i < n
        invariant
            i <= n,
            n == records.len(),
            wanted@ == version@,
            select(records.deep_view(), version@) == select(
                records.deep_view().skip(i as int),
                version@,
            ),
        decreases n - i,
    {
        let ghost here = records.deep_view().skip(i as int);
        assert(here[0] == records[i as int].deep_view());
        assert(here.drop_first() =~= records.deep_view().skip(i + 1));
        match &records[i] {
            None => {
                return Err(LookupError::MalformedIndexRecord);
            },
            Some(record) => {
                if record.vers == wanted {
                    return Ok(record.cksum.clone());
                }
            },
        }
        i += 1;
    }
    Err(LookupError::VersionNotFound)
}

/// The checksum that the index file `content` records for `version`.
pub fn get_checksum_from_content(content: &[u8], version: &str) -> (r: Result<String, LookupError>)
    ensures
        checksum_view(r) == select(file_records(content@), version@),
{
    let records = parse_index_lines(content);
    select_checksum(&records, version)
}

/// The checksum of `crate_version` in a package's index file, given what was
/// found at the file's place.
pub fn get_checksum_from_index(file: &IndexFile, crate_version: &str) -> (r: Result<
    String,
    LookupError,
>)
    ensures
        checksum_view(r) == lookup(file@, crate_version@),
        file@ is Missing ==> r == Err::<String, LookupError>(LookupError::IndexFileMissing),
{
    match file {
        IndexFile::Content(content) => get_checksum_from_content(content.as_slice(), crate_version),
        IndexFile::Missing => Err(LookupError::IndexFileMissing),
        IndexFile::Unreadable => Err(LookupError::InternalIO),
    }
}

} // verus!
