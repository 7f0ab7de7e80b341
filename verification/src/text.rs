//! Text helpers shared by the panel: joining names for display and copying
//! lists of names.

use vstd::prelude::*;

verus! {

/// The parts of `parts`, in order, with `sep` between each two neighbours.
pub open spec fn joined(parts: Seq<Seq<char>>, sep: Seq<char>) -> Seq<char>
    decreases parts.len(),
{
    if parts.len() == 0 {
        Seq::empty()
    } else if parts.len() == 1 {
        parts[0]
    } else {
        joined(parts.drop_last(), sep) + sep + parts.last()
    }
}

/// A copy of a list of names that holds the same strings in the same order.
pub fn clone_strings(names: &Vec<String>) -> (copy: Vec<String>)
    ensures
        copy@ == names@,
{
    let copy = names.clone();
    assert(copy@ =~= names@);
    copy
}

/// Joins a list of names into one line for display, with a comma and a
/// space between each two names. The first name is taken out of the list,
/// the others stay in it.
pub fn format_vec_str(vstr: &mut Vec<String>) -> (line: String)
    requires
        old(vstr).len() > 0,
    ensures
        line@ == joined(old(vstr).deep_view(), ", "@),
        final(vstr)@ == old(vstr)@.drop_first(),
{
    let ghost names = vstr.deep_view();
    let ghost before = vstr@;
    let mut line = vstr.remove(0);
    assert(vstr@ =~= before.drop_first());
    let mut i: usize = 0;
    while i < vstr.len()
        invariant
            i <= vstr.len(),
            names.len() == vstr.len() + 1,
            forall|k: int| 0 <= k < vstr.len() ==> (#[trigger] vstr@[k])@ == names[k + 1],
            line@ == joined(names.take(i + 1), ", "@),
        decreases vstr.len() - i,
    {
        line.append(", ");
        line.append(vstr[i].as_str());
        proof {
            let shorter = names.take(i + 1);
            let longer = names.take(i + 2);
            assert(longer.drop_last() =~= shorter);
        }
        i += 1;
    }
    assert(names.take(i + 1) =~= names);
    line
}

/// The text that `String::from_utf8_lossy` makes of `bytes`.
pub uninterp spec fn lossy_text(bytes: Seq<u8>) -> Seq<char>;

/// Decodes bytes as text with `String::from_utf8_lossy` of the standard
/// library. Nothing here is proved of it. Its result is named
/// [`lossy_text`]; as the standard library documents, bytes that are valid
/// UTF-8 come out as the text they encode, and only invalid ones are
/// replaced.
#[verifier::external_body]
pub(crate) fn decode_lossy(bytes: &Vec<u8>) -> (text: String)
    ensures
        text@ == lossy_text(bytes@),
        vstd::utf8::valid_utf8(bytes@) ==> text@ == vstd::utf8::decode_utf8(bytes@),
{
    String::from_utf8_lossy(bytes).into_owned()
}

} // verus!
