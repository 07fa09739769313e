//! The table of named colours behind the colour-name lookup: the entries of
//! the colour database whose codes read as colours, in order.

use vstd::prelude::*;
use vstd::utf8::encode_utf8;
use crate::hex::{parse_hex, pieces_on_char_boundaries, spec_parse_hex};

verus! {

/// One entry of the colour database: a name and its `#rrggbb` code.
pub struct ColorEntry {
    pub name: String,
    pub hex: String,
}

/// The usable colours of the database: `names[i]` is the name of `colors[i]`.
pub struct Palette {
    pub names: Vec<String>,
    pub colors: Vec<(u8, u8, u8)>,
}

/// The colour an entry's code names, if it reads as one.
pub open spec fn entry_color(e: ColorEntry) -> Option<(u8, u8, u8)> {
    spec_parse_hex(encode_utf8(e.hex@))
}

/// The `(name, colour)` pairs of the entries whose code reads as a colour,
/// in the order of the entries.
pub open spec fn spec_palette(entries: Seq<ColorEntry>) -> Seq<(Seq<char>, (u8, u8, u8))>
    decreases entries.len(),
{
    if entries.len() == 0 {
        seq![]
    } else {
        let prev = spec_palette(entries.drop_last());
        match entry_color(entries.last()) {
            Some(c) => prev.push((entries.last().name@, c)),
            None => prev,
        }
    }
}

/// Every entry's code can be cut into its three two-byte pieces.
pub open spec fn entries_well_cut(entries: Seq<ColorEntry>) -> bool {
    forall|i: int| 0 <= i < entries.len() ==> pieces_on_char_boundaries(
        encode_utf8(#[trigger] entries[i].hex@),
    )
}

impl Palette {
    /// The palette holds exactly the pairs `pairs`.
    pub open spec fn holds(&self, pairs: Seq<(Seq<char>, (u8, u8, u8))>) -> bool {
        &&& self.names@.len() == pairs.len()
        &&& self.colors@.len() == pairs.len()
        &&& forall|i: int| 0 <= i < pairs.len() ==> (#[trigger] self.names@[i])@ == pairs[i].0
            && self.colors@[i] == pairs[i].1
    }
}

/// Keeps the entries whose code reads as a colour, with that colour.
pub fn palette_from_entries(entries: &Vec<ColorEntry>) -> (p: Palette)
    requires
        entries_well_cut(entries@),
    ensures
        p.holds(spec_palette(entries@)),
{
    let mut names: Vec<String> = Vec::new();
    let mut colors: Vec<(u8, u8, u8)> = Vec::new();
    let mut k: usize = 0;
    while k < entries.len()
        invariant
            k <= entries@.len(),
            entries_well_cut(entries@),
            (Palette { names, colors }).holds(spec_palette(entries@.take(k as int))),
        decreases entries.len() - k,
    {
        let entry = &entries[k];
        proof {
            assert(entries@.take(k + 1).drop_last() =~= entries@.take(k as int));
            assert(entries@.take(k + 1).last() == entries@[k as int]);
            assert(pieces_on_char_boundaries(encode_utf8(entries@[k as int].hex@)));
        }
        match parse_hex(entry.hex.as_str()) {
            Some(c) => {
                names.push(entry.name.clone());
                colors.push(c);
            },
            None => {},
        }
        k = k + 1;
    }
    assert(entries@.take(entries@.len() as int) =~= entries@);
    Palette { names, colors }
}

} // verus!
