use vstd::prelude::*;

verus! {

/// The content type of a stored object that carries none.
pub const DEFAULT_CONTENT_TYPE: &'static str = "image/jpeg";

/// The key of a cat picture in the object store.
pub struct CatId {
    pub id: String,
}

/// A cat picture fetched from the object store, with its content type.
pub struct Cat {
    pub bytes: Vec<u8>,
    pub content_type: String,
}

/// The content type reported for an object: its own, or
/// `DEFAULT_CONTENT_TYPE` where it has none.
pub open spec fn content_type_or_default(content_type: Option<Seq<char>>) -> Seq<char> {
    match content_type {
        Some(t) => t,
        None => DEFAULT_CONTENT_TYPE@,
    }
}

impl Cat {
    /// A fetched object as a cat: its bytes unchanged, and its content type,
    /// or `DEFAULT_CONTENT_TYPE` where the store reported none.
    pub fn from_object(content_type: Option<&str>, bytes: Vec<u8>) -> (r: Cat)
        ensures
            r.bytes@ == bytes@,
            r.content_type@ == content_type_or_default(
                match content_type {
                    Some(t) => Some(t@),
                    None => None,
                },
            ),
    {
        let content_type = match content_type {
            Some(t) => t.to_owned(),
            None => DEFAULT_CONTENT_TYPE.to_owned(),
        };
        Cat { bytes, content_type }
    }
}

} // verus!
