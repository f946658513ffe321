use vstd::prelude::*;
use vstd::utf8::{decode_utf8, valid_utf8};

use crate::error::FormatError;

verus! {

/// One variant site, reduced to what the filter reads.
#[derive(Debug, PartialEq, Eq)]
pub struct Record {
    /// Identifier of the bubble that the site belongs to.
    pub id: String,
    /// Identifier of the bubble that encloses it; empty at top level.
    pub parent_id: String,
    /// Nesting depth in the bubble tree; the root is at depth 0.
    pub level: i32,
    /// Length of the reference allele.
    pub ref_length: usize,
    /// Length of the longest allele, the reference allele included.
    pub max_allele_length: usize,
}

/// The mathematical content of a [`Record`].
pub struct RecordView {
    pub id: Seq<char>,
    pub parent_id: Seq<char>,
    pub level: int,
    pub ref_length: nat,
    pub max_allele_length: nat,
}

impl RecordView {
    /// The identifier is not empty, the depth is not negative, the reference
    /// allele is not empty, and the longest allele is no shorter than it.
    pub open spec fn wf(self) -> bool {
        &&& self.id.len() > 0
        &&& self.level >= 0
        &&& 0 < self.ref_length <= self.max_allele_length
    }
}

impl View for Record {
    type V = RecordView;

    open spec fn view(&self) -> RecordView {
        RecordView {
            id: self.id@,
            parent_id: self.parent_id@,
            level: self.level as int,
            ref_length: self.ref_length as nat,
            max_allele_length: self.max_allele_length as nat,
        }
    }
}

impl Clone for Record {
    fn clone(&self) -> (copy: Record)
        ensures
            copy == *self,
    {
        Record {
            id: self.id.clone(),
            parent_id: self.parent_id.clone(),
            level: self.level,
            ref_length: self.ref_length,
            max_allele_length: self.max_allele_length,
        }
    }
}

/// The views of a sequence of records, in the same order.
pub open spec fn views(records: Seq<Record>) -> Seq<RecordView> {
    records.map_values(|r: Record| r@)
}

/// What looking up one annotation of a raw record gave.
#[derive(Debug, PartialEq, Eq)]
pub enum InfoLookup<T> {
    /// The record carries the annotation, with these values.
    Values(Vec<T>),
    /// The record does not carry the annotation.
    Absent,
    /// The annotation is not declared, or is declared with another type.
    Failed,
}

/// The identifier that stands for a missing one.
pub open spec fn missing_id() -> Seq<char> {
    seq!['.']
}

/// An identifier is never empty: the empty one becomes [`missing_id`].
pub open spec fn normalized_id(id: Seq<char>) -> Seq<char> {
    if id.len() == 0 {
        missing_id()
    } else {
        id
    }
}

/// The nesting level that a lookup of the level annotation stands for: its
/// first value, which must not be negative.
pub open spec fn level_of(lookup: InfoLookup<i32>) -> Result<i32, FormatError> {
    match lookup {
        InfoLookup::Values(values) => if values@.len() == 0 {
            Err(FormatError::MissingLevel)
        } else if values@[0] < 0 {
            Err(FormatError::NegativeLevel)
        } else {
            Ok(values@[0])
        },
        _ => Err(FormatError::MissingLevel),
    }
}

/// The characters that `String::from_utf8_lossy` makes of `bytes`.
pub uninterp spec fn utf8_lossy(bytes: Seq<u8>) -> Seq<char>;

/// Bytes read leniently: the characters that they encode where they are
/// valid UTF-8, and otherwise what the lossy conversion makes of them.
pub open spec fn lenient_utf8(bytes: Seq<u8>) -> Seq<char> {
    if valid_utf8(bytes) {
        decode_utf8(bytes)
    } else {
        utf8_lossy(bytes)
    }
}

/// The parent identifier that a lookup of the parent annotation stands for:
/// its first value, read leniently; empty where there is none.
pub open spec fn parent_of(lookup: InfoLookup<Vec<u8>>) -> Seq<char> {
    match lookup {
        InfoLookup::Values(values) => if values@.len() == 0 {
            Seq::empty()
        } else {
            lenient_utf8(values@[0]@)
        },
        _ => Seq::empty(),
    }
}

/// `length` is the length of one of the alleles, and none is longer.
pub open spec fn is_max_allele_length(alleles: Seq<&[u8]>, length: int) -> bool {
    &&& exists|i: int| 0 <= i < alleles.len() && (#[trigger] alleles[i])@.len() == length
    &&& forall|i: int| 0 <= i < alleles.len() ==> (#[trigger] alleles[i])@.len() <= length
}

/// The reason, if any, for which the alleles of a raw record are refused.
pub open spec fn allele_error(alleles: Seq<&[u8]>) -> Option<FormatError> {
    if alleles.len() == 0 {
        Some(FormatError::NoAlleles)
    } else if alleles[0]@.len() == 0 {
        Some(FormatError::EmptyReference)
    } else {
        None
    }
}

/// The first reason, if any, for which raw fields are refused: the level is
/// looked at first, then the alleles, then the identifier.
pub open spec fn decode_error(
    id: Seq<u8>,
    level: InfoLookup<i32>,
    alleles: Seq<&[u8]>,
) -> Option<FormatError> {
    if level_of(level) is Err {
        Some(level_of(level)->Err_0)
    } else if allele_error(alleles) is Some {
        allele_error(alleles)
    } else if !valid_utf8(id) {
        Some(FormatError::InvalidId)
    } else {
        None
    }
}

/// Calls `String::from_utf8`, which succeeds exactly on valid UTF-8 and then
/// gives the string that these bytes encode.
#[verifier::external_body]
fn string_from_utf8(bytes: Vec<u8>) -> (r: Option<String>)
    ensures
        r is Some <==> valid_utf8(bytes@),
        r matches Some(s) ==> s@ == decode_utf8(bytes@),
{
    match String::from_utf8(bytes) {
        Ok(s) => Some(s),
        Err(_) => None,
    }
}

/// Calls `String::from_utf8_lossy`, which always gives a string: the one that
/// the bytes encode where they are valid UTF-8, and otherwise one in which
/// each invalid stretch is replaced.
#[verifier::external_body]
fn string_from_utf8_lossy(bytes: &Vec<u8>) -> (r: String)
    ensures
        r@ == utf8_lossy(bytes@),
        valid_utf8(bytes@) ==> r@ == decode_utf8(bytes@),
{
    String::from_utf8_lossy(bytes).into_owned()
}

/// The nesting level of a record, from the lookup of its level annotation.
pub fn get_level(lookup: &InfoLookup<i32>) -> (r: Result<i32, FormatError>)
    ensures
        r == level_of(*lookup),
{
    match lookup {
        InfoLookup::Values(values) => {
            if values.len() == 0 {
                Err(FormatError::MissingLevel)
            } else if values[0] < 0 {
                Err(FormatError::NegativeLevel)
            } else {
                Ok(values[0])
            }
        },
        InfoLookup::Absent => Err(FormatError::MissingLevel),
        InfoLookup::Failed => Err(FormatError::MissingLevel),
    }
}

/// The identifier of a record, from the bytes of its identifier column.
pub fn get_snarl_id(id: Vec<u8>) -> (r: Result<String, FormatError>)
    ensures
        r is Ok <==> valid_utf8(id@),
        r matches Ok(s) ==> s@ == normalized_id(decode_utf8(id@)),
        r matches Err(e) ==> e == FormatError::InvalidId,
{
    match string_from_utf8(id) {
        Some(s) => {
            if s.as_str().is_empty() {
                proof {
                    reveal_strlit(".");
                }
                let dot = ".".to_owned();
                assert(dot@ =~= missing_id());
                Ok(dot)
            } else {
                Ok(s)
            }
        },
        None => Err(FormatError::InvalidId),
    }
}

/// The identifier of the enclosing bubble, from the lookup of the parent
/// annotation. A record without one is at top level.
pub fn get_parent_snarl(lookup: &InfoLookup<Vec<u8>>) -> (r: String)
    ensures
        r@ == parent_of(*lookup),
{
    match lookup {
        InfoLookup::Values(values) => {
            if values.len() == 0 {
                String::new()
            } else {
                string_from_utf8_lossy(&values[0])
            }
        },
        InfoLookup::Absent => String::new(),
        InfoLookup::Failed => String::new(),
    }
}

/// The length of the longest allele of a record.
pub fn get_max_allele_length(alleles: &Vec<&[u8]>) -> (r: Result<usize, FormatError>)
    ensures
        r is Ok <==> alleles@.len() > 0,
        r matches Ok(length) ==> is_max_allele_length(alleles@, length as int),
        r matches Err(e) ==> e == FormatError::NoAlleles,
{
    if alleles.len() == 0 {
        return Err(FormatError::NoAlleles);
    }
    let mut longest: usize = alleles[0].len();
    let mut i: usize = 1;
    while i < alleles.len()
        invariant
            1 <= i <= alleles@.len(),
            exists|j: int| 0 <= j < i && (#[trigger] alleles@[j])@.len() == longest,
            forall|j: int| 0 <= j < i ==> (#[trigger] alleles@[j])@.len() <= longest,
        decreases alleles@.len() - i,
    {
        let length: usize = alleles[i].len();
        if length > longest {
            longest = length;
        }
        i += 1;
    }
    Ok(longest)
}

/// The length of the reference allele of a record, which is its first allele.
pub fn get_ref_allele_length(alleles: &Vec<&[u8]>) -> (r: Result<usize, FormatError>)
    ensures
        r is Ok <==> allele_error(alleles@) is None,
        r matches Ok(length) ==> length == alleles@[0]@.len(),
        r matches Err(e) ==> allele_error(alleles@) == Some(e),
{
    if alleles.len() == 0 {
        Err(FormatError::NoAlleles)
    } else if alleles[0].len() == 0 {
        Err(FormatError::EmptyReference)
    } else {
        Ok(alleles[0].len())
    }
}

impl Record {
    /// The record satisfies the invariant of its view.
    pub open spec fn wf(&self) -> bool {
        self@.wf()
    }

    /// Builds a record from the raw fields of a variant site, or says why
    /// they are refused.
    pub fn decode(
        id: Vec<u8>,
        level: &InfoLookup<i32>,
        parent: &InfoLookup<Vec<u8>>,
        alleles: &Vec<&[u8]>,
    ) -> (r: Result<Record, FormatError>)
        ensures
            r is Ok <==> decode_error(id@, *level, alleles@) is None,
            r matches Err(e) ==> decode_error(id@, *level, alleles@) == Some(e),
            r matches Ok(record) ==> record.wf(),
            r matches Ok(record) ==> record.id@ == normalized_id(decode_utf8(id@)),
            r matches Ok(record) ==> record.parent_id@ == parent_of(*parent),
            r matches Ok(record) ==> level_of(*level) == Ok::<i32, FormatError>(record.level),
            r matches Ok(record) ==> record.ref_length == alleles@[0]@.len(),
            r matches Ok(record) ==> is_max_allele_length(
                alleles@,
                record.max_allele_length as int,
            ),
    {
        let level = match get_level(level) {
            Ok(level) => level,
            Err(e) => {
                return Err(e);
            },
        };
        let max_allele_length = match get_max_allele_length(alleles) {
            Ok(length) => length,
            Err(e) => {
                return Err(e);
            },
        };
        let ref_length = match get_ref_allele_length(alleles) {
            Ok(length) => length,
            Err(e) => {
                return Err(e);
            },
        };
        let id = match get_snarl_id(id) {
            Ok(id) => id,
            Err(e) => {
                return Err(e);
            },
        };
        let parent_id = get_parent_snarl(parent);
        Ok(Record { id, parent_id, level, ref_length, max_allele_length })
    }
}

} // verus!
