//! Reading the transcript text out of a finished job's JSON result document.

use vstd::prelude::*;

use crate::error::PipelineError;

verus! {

broadcast use vstd::string::group_string_axioms;

#[verifier::external_type_specification]
#[verifier::external_body]
pub struct ExJsonValue(serde_json::Value);

#[verifier::external_type_specification]
#[verifier::external_body]
pub struct ExJsonError(serde_json::Error);

/// The string leaves of a JSON document: each JSON pointer under which
/// `serde_json::Value::pointer` finds a string, with that string.
pub uninterp spec fn json_strings(v: serde_json::Value) -> Map<Seq<char>, Seq<char>>;

/// The arrays of a JSON document: each JSON pointer under which
/// `serde_json::Value::pointer` finds an array.
pub uninterp spec fn json_arrays(v: serde_json::Value) -> Set<Seq<char>>;

/// What `serde_json::from_str::<Value>` makes of a text: `None` where it
/// refuses the text (not JSON, or nested beyond its recursion limit), else
/// the string leaves and the arrays of the document.
pub uninterp spec fn parsed_json(text: Seq<char>) -> Option<(Map<Seq<char>, Seq<char>>, Set<Seq<char>>)>;

/// A text that `Value::pointer` can resolve: empty, or starting with `/`.
pub open spec fn is_json_pointer(p: Seq<char>) -> bool {
    p.len() == 0 || p[0] == '/'
}

/// The string leaves found under `prefix`, keyed by the rest of their pointer.
pub open spec fn strings_below(
    leaves: Map<Seq<char>, Seq<char>>,
    prefix: Seq<char>,
) -> Map<Seq<char>, Seq<char>> {
    Map::new(
        |q: Seq<char>| is_json_pointer(q) && leaves.contains_key(prefix + q),
        |q: Seq<char>| leaves[prefix + q],
    )
}

/// The arrays found under `prefix`, by the rest of their pointer.
pub open spec fn arrays_below(arrays: Set<Seq<char>>, prefix: Seq<char>) -> Set<Seq<char>> {
    Set::new(|q: Seq<char>| is_json_pointer(q) && arrays.contains(prefix + q))
}

/// Relies on `serde_json::from_str` into a `Value`: whether it fails, and the
/// document it builds, depend on the text alone.
#[verifier::external_body]
fn parse_json(text: &str) -> (r: Result<serde_json::Value, serde_json::Error>)
    ensures
        match r {
            Ok(v) => parsed_json(text@) == Some((json_strings(v), json_arrays(v))),
            Err(_) => parsed_json(text@) is None,
        },
{
    serde_json::from_str::<serde_json::Value>(text)
}

/// Relies on `serde_json::Value::pointer`: the pointer's tokens are followed
/// one after another, so what is found under `pointer` followed by `q` is what
/// the result holds under `q`; nothing is found where the result is `None`.
pub assume_specification<'a>[ serde_json::Value::pointer ](
    v: &'a serde_json::Value,
    pointer: &str,
) -> (r: Option<&'a serde_json::Value>)
    ensures
        match r {
            Some(w) => {
                &&& json_strings(*w) == strings_below(json_strings(*v), pointer@)
                &&& json_arrays(*w) == arrays_below(json_arrays(*v), pointer@)
            },
            None => {
                &&& forall|q: Seq<char>|
                    is_json_pointer(q) ==> !#[trigger] json_strings(*v).contains_key(pointer@ + q)
                &&& forall|q: Seq<char>|
                    is_json_pointer(q) ==> !#[trigger] json_arrays(*v).contains(pointer@ + q)
            },
        },
;

/// Relies on `serde_json::Value::as_str`: the string a `Value::String` holds,
/// which is the leaf under the empty pointer.
pub assume_specification<'a>[ serde_json::Value::as_str ](v: &'a serde_json::Value) -> (r: Option<
    &'a str,
>)
    ensures
        r is Some <==> json_strings(*v).contains_key(Seq::empty()),
        r matches Some(s) ==> s@ == json_strings(*v)[Seq::empty()],
;

/// Relies on `serde_json::Value::is_array`: whether the value is an array,
/// which is whether an array stands under the empty pointer.
pub assume_specification[ serde_json::Value::is_array ](v: &serde_json::Value) -> (r: bool)
    ensures
        r == json_arrays(*v).contains(Seq::empty()),
;

/// Where a result document keeps its list of transcripts.
pub const TRANSCRIPTS_POINTER: &'static str = "/results/transcripts";

/// Where the text stands inside that list: first entry, its `transcript`.
pub const FIRST_TRANSCRIPT_POINTER: &'static str = "/0/transcript";

/// The transcript that a result document holds, or `None` where it holds no
/// non-empty one. `None` as well where serde_json refuses the text. The list
/// of transcripts must be an array; an object with a member named `0` is no
/// list.
pub open spec fn transcript_of(document: Seq<char>) -> Option<Seq<char>> {
    let at = TRANSCRIPTS_POINTER@ + FIRST_TRANSCRIPT_POINTER@;
    match parsed_json(document) {
        Some((leaves, arrays)) => if arrays.contains(TRANSCRIPTS_POINTER@) && leaves.contains_key(at)
            && leaves[at].len() > 0 {
            Some(leaves[at])
        } else {
            None
        },
        None => None,
    }
}

/// Extracts the transcript text from a job's result document.
/// A text that serde_json refuses gives `MalformedResult`; a document whose
/// `/results/transcripts` is not an array whose first entry holds a non-empty
/// string `transcript` gives `TranscriptNotFound`.
pub fn get_transcription_result(document: &str) -> (r: Result<String, PipelineError>)
    ensures
        match r {
            Ok(t) => transcript_of(document@) == Some(t@),
            Err(e) => {
                &&& transcript_of(document@) is None
                &&& e == (if parsed_json(document@) is None {
                    PipelineError::MalformedResult
                } else {
                    PipelineError::TranscriptNotFound
                })
            },
        },
{
    let v = match parse_json(document) {
        Ok(v) => v,
        Err(_) => return Err(PipelineError::MalformedResult),
    };
    let ghost leaves = json_strings(v);
    let ghost arrays = json_arrays(v);
    let ghost list = TRANSCRIPTS_POINTER@;
    let ghost entry = FIRST_TRANSCRIPT_POINTER@;
    let ghost at = list + entry;
    let ghost empty = Seq::<char>::empty();
    assert(list + empty =~= list);
    assert(entry + empty =~= entry);
    assert(at + empty =~= at);
    proof {
        reveal_strlit("/0/transcript");
    }
    assert(is_json_pointer(entry));
    assert(is_json_pointer(empty));
    let found = match v.pointer(TRANSCRIPTS_POINTER) {
        Some(transcripts) => {
            assert(json_arrays(*transcripts).contains(empty) == arrays.contains(list));
            if transcripts.is_array() {
                let ghost below = json_strings(*transcripts);
                assert(below.contains_key(entry) == leaves.contains_key(at));
                match transcripts.pointer(FIRST_TRANSCRIPT_POINTER) {
                    Some(w) => {
                        assert(json_strings(*w).contains_key(empty) == below.contains_key(entry));
                        assert(below.contains_key(entry) ==> below[entry] == leaves[at]);
                        w.as_str()
                    },
                    None => {
                        assert(!below.contains_key(entry + empty));
                        None
                    },
                }
            } else {
                None
            }
        },
        None => {
            assert(!arrays.contains(list + empty));
            None
        },
    };
    transcript_from_field(found)
}

/// The transcript held by the document's transcript field: the field's
/// text where it is a non-empty string, else `TranscriptNotFound`.
pub fn transcript_from_field(field: Option<&str>) -> (r: Result<String, PipelineError>)
    ensures
        match field {
            Some(s) => if s@.len() > 0 {
                r matches Ok(t) && t@ == s@
            } else {
                r == Err::<String, PipelineError>(PipelineError::TranscriptNotFound)
            },
            None => r == Err::<String, PipelineError>(PipelineError::TranscriptNotFound),
        },
{
    match field {
        Some(s) => {
            if s.unicode_len() == 0 {
                Err(PipelineError::TranscriptNotFound)
            } else {
                Ok(String::from_str(s))
            }
        },
        None => Err(PipelineError::TranscriptNotFound),
    }
}

} // verus!
