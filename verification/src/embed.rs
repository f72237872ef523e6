//! Plain data for the parts of a Discord message that the commands fill in.

use vstd::prelude::*;

verus! {

/// One field of an embed.
#[derive(Debug)]
pub struct EmbedFieldData {
    pub name: String,
    pub value: String,
    pub inline: bool,
}

/// The text view of an embed field: name, value, inline flag.
pub open spec fn field_view(f: EmbedFieldData) -> (Seq<char>, Seq<char>, bool) {
    (f.name@, f.value@, f.inline)
}

/// The text views of a list of embed fields.
pub open spec fn fields_view(fs: Seq<EmbedFieldData>) -> Seq<(Seq<char>, Seq<char>, bool)> {
    fs.map_values(|f: EmbedFieldData| field_view(f))
}

/// A new embed field.
pub fn field(name: String, value: String, inline: bool) -> (r: EmbedFieldData)
    ensures
        r.name@ == name@,
        r.value@ == value@,
        r.inline == inline,
{
    EmbedFieldData { name, value, inline }
}

} // verus!
