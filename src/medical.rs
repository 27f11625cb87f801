//! Answers to medical-text analysis requests.

use vstd::prelude::*;

verus! {

broadcast use vstd::string::group_string_axioms;

/// The text that answers a medical-text analysis: the entity descriptions,
/// one per line, or `No entities found.` where there are none.
pub open spec fn entities_reply(descriptions: Seq<Seq<char>>) -> Seq<char> {
    if descriptions.len() == 0 {
        "No entities found."@
    } else {
        joined_lines(descriptions)
    }
}

/// The items separated by newlines.
pub open spec fn joined_lines(items: Seq<Seq<char>>) -> Seq<char>
    decreases items.len(),
{
    if items.len() == 0 {
        Seq::empty()
    } else if items.len() == 1 {
        items[0]
    } else {
        joined_lines(items.drop_last()) + seq!['\n'] + items.last()
    }
}

/// Builds the answer to a medical-text analysis from the descriptions of the
/// detected entities.
pub fn medical_entities_reply(descriptions: &Vec<String>) -> (r: String)
    ensures
        r@ == entities_reply(descriptions@.map_values(|d: String| d@)),
{
    let ghost items = descriptions@.map_values(|d: String| d@);
    if descriptions.len() == 0 {
        return String::from_str("No entities found.");
    }
    let mut out = String::new();
    let mut i: usize = 0;
    while i < descriptions.len()
        invariant
            i <= descriptions.len(),
            items == descriptions@.map_values(|d: String| d@),
            out@ == joined_lines(items.take(i as int)),
        decreases descriptions.len() - i,
    {
        if i > 0 {
            out.append("\n");
        }
        out.append(descriptions[i].as_str());
        proof {
            reveal_strlit("\n");
            let next = items.take(i + 1);
            assert(next.drop_last() =~= items.take(i as int));
            if i == 0 {
                assert(items.take(0) =~= Seq::<Seq<char>>::empty());
            }
        }
        i = i + 1;
    }
    assert(items.take(i as int) =~= items);
    out
}

} // verus!
