use vstd::prelude::*;

verus! {

/// Media type of raw video caps.
pub open spec fn raw_video() -> Seq<char> {
    "video/x-raw"@
}

/// Media type of raw text caps.
pub open spec fn raw_text() -> Seq<char> {
    "text/x-raw"@
}

/// The characters of each string, in order.
pub open spec fn strings_view(s: Seq<String>) -> Seq<Seq<char>> {
    s.map_values(|x: String| x@)
}

/// The characters of an optional string.
pub open spec fn opt_string_view(s: Option<String>) -> Option<Seq<char>> {
    match s {
        Some(x) => Some(x@),
        None => None,
    }
}

/// The bytes of an optional byte vector.
pub open spec fn opt_bytes_view(b: Option<Vec<u8>>) -> Option<Seq<u8>> {
    match b {
        Some(x) => Some(x@),
        None => None,
    }
}

/// Pairs of (pad name, text), as characters.
pub open spec fn texts_view(t: Seq<(String, String)>) -> Seq<(Seq<char>, Seq<char>)> {
    t.map_values(|p: (String, String)| (p.0@, p.1@))
}

} // verus!
