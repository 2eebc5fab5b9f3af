//! Planning half of the hide primitive.
//!
//! The primitive itself is platform work done by the caller: a rename on
//! systems that hide dot-prefixed names, an attribute write on systems with
//! a native hidden bit. Both are driven from here: given what the caller
//! observed (the entry's name, or its attribute word), these functions say
//! whether anything is to be done and compute exactly what, so that the
//! primitive is idempotent — an already hidden entry is a no-op.

use vstd::prelude::*;
use vstd::string::StrSliceExecFns;
use vstd::string::StringExecFns;

verus! {

/// The hidden bit of a native file attribute word.
pub const HIDDEN_ATTRIBUTE: u32 = 2;

/// Whether a name is already hidden under the dot convention.
pub open spec fn spec_dot_hidden(name: Seq<char>) -> bool {
    name.len() > 0 && name[0] == '.'
}

/// The name an entry carries once the rename-based hide primitive is done
/// with it: unchanged if already dot-prefixed, a leading dot added
/// otherwise.
pub open spec fn spec_hidden_name(name: Seq<char>) -> Seq<char> {
    if spec_dot_hidden(name) {
        name
    } else {
        seq!['.'] + name
    }
}

/// Plan the rename-based hide of one entry: `None` when the name is already
/// dot-prefixed (the primitive is a no-op), otherwise the name to rename the
/// entry to, in place, inside the same parent directory.
pub fn hide_plan(name: &str) -> (r: Option<String>)
    ensures
        match r {
            None => name@ == spec_hidden_name(name@),
            Some(new_name) => new_name@ == spec_hidden_name(name@)
                && name@ != spec_hidden_name(name@),
        },
{
    if name.unicode_len() > 0 && name.get_char(0) == '.' {
        None
    } else {
        let mut hidden = String::from_str(".");
        hidden.append(name);
        proof {
            reveal_strlit(".");
            assert(hidden@ =~= seq!['.'] + name@);
            assert(spec_hidden_name(name@).len() == name@.len() + 1);
        }
        Some(hidden)
    }
}

/// Hiding a name is idempotent: the name the hide primitive produces is left
/// unchanged by a second application.
pub proof fn lemma_hide_name_idempotent(name: Seq<char>)
    ensures
        spec_hidden_name(spec_hidden_name(name)) == spec_hidden_name(name),
{
    if !spec_dot_hidden(name) {
        assert((seq!['.'] + name)[0] == '.');
    }
}

/// Effect of the rename-based hide on the parent directory's listing,
/// modelled as the set of names the directory holds: the entry's name is
/// replaced by its dotted form; a name that is already dotted leaves the
/// listing as it was.
pub open spec fn listing_after_hide(entries: Set<Seq<char>>, name: Seq<char>) -> Set<Seq<char>> {
    if spec_dot_hidden(name) {
        entries
    } else {
        entries.remove(name).insert(spec_hidden_name(name))
    }
}

/// Round trip of the rename-based hide on a directory listing: hiding a
/// not-yet-hidden entry puts its dotted name into the listing, takes the
/// plain name out, and changes no other entry.
pub proof fn lemma_hide_round_trip(entries: Set<Seq<char>>, name: Seq<char>)
    requires
        entries.contains(name),
        !spec_dot_hidden(name),
    ensures
        listing_after_hide(entries, name).contains(spec_hidden_name(name)),
        !listing_after_hide(entries, name).contains(name),
        forall|other: Seq<char>|
            other != name && other != spec_hidden_name(name) ==> (entries.contains(other)
                <==> #[trigger] listing_after_hide(entries, name).contains(other)),
{
    assert(spec_hidden_name(name).len() == name.len() + 1);
}

/// Attribute word once the attribute-based hide primitive is done with an
/// entry: the hidden bit set, every other bit as it was.
pub open spec fn spec_hidden_attributes(attrs: u32) -> u32 {
    attrs | HIDDEN_ATTRIBUTE
}

/// Plan the attribute-based hide of one entry, from its current attribute
/// word: `None` when the hidden bit is already set (the primitive is a
/// no-op), otherwise the word to write back.
pub fn hide_attributes_plan(attrs: u32) -> (r: Option<u32>)
    ensures
        match r {
            None => attrs == spec_hidden_attributes(attrs),
            Some(new_attrs) => new_attrs == spec_hidden_attributes(attrs)
                && attrs != spec_hidden_attributes(attrs),
        },
{
    if attrs & HIDDEN_ATTRIBUTE == HIDDEN_ATTRIBUTE {
        proof {
            assert(attrs == attrs | 2u32) by (bit_vector)
                requires
                    attrs & 2u32 == 2u32,
            ;
        }
        None
    } else {
        proof {
            assert(attrs != attrs | 2u32) by (bit_vector)
                requires
                    attrs & 2u32 != 2u32,
            ;
        }
        Some(attrs | HIDDEN_ATTRIBUTE)
    }
}

/// The attribute-based hide sets the hidden bit and alters no other bit.
pub proof fn lemma_hidden_attributes_bits(attrs: u32)
    ensures
        spec_hidden_attributes(attrs) & HIDDEN_ATTRIBUTE == HIDDEN_ATTRIBUTE,
        spec_hidden_attributes(attrs) & !HIDDEN_ATTRIBUTE == attrs & !HIDDEN_ATTRIBUTE,
{
    assert((attrs | 2u32) & 2u32 == 2u32) by (bit_vector);
    assert((attrs | 2u32) & !2u32 == attrs & !2u32) by (bit_vector);
}

/// Hiding by attribute is idempotent: setting the hidden bit a second time
/// changes nothing.
pub proof fn lemma_hide_attributes_idempotent(attrs: u32)
    ensures
        spec_hidden_attributes(spec_hidden_attributes(attrs)) == spec_hidden_attributes(attrs),
{
    assert((attrs | 2u32) | 2u32 == attrs | 2u32) by (bit_vector);
}

} // verus!
