use vstd::prelude::*;

verus! {

/// What a request carries in its body.
#[derive(Debug)]
pub enum RequestBody {
    /// A JSON document, already written out.
    Json(String),
    /// Form fields, in the order they are to be encoded.
    Form(Vec<(String, String)>),
}

/// A POST request, fully described: where it goes, its headers in order, and
/// its body.
#[derive(Debug)]
pub struct HttpRequest {
    pub url: String,
    pub headers: Vec<(String, String)>,
    pub body: RequestBody,
}

/// The text of a list of name/value pairs.
pub open spec fn pairs_view(p: Seq<(String, String)>) -> Seq<(Seq<char>, Seq<char>)> {
    p.map_values(|e: (String, String)| (e.0@, e.1@))
}

} // verus!
