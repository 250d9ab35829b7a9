//! Set codes.
//!
//! A set code is a 3 to 6 letter ASCII code, like `war` for 'War of
//! the Spark'.

use vstd::prelude::*;

verus! {

broadcast use vstd::string::group_string_axioms;

/// A 3 to 6 letter ASCII set code.
#[derive(Debug, Clone, PartialEq, Eq, Hash)]
pub struct SetCode {
    code: String,
}

impl View for SetCode {
    type V = Seq<char>;

    closed spec fn view(&self) -> Seq<char> {
        self.code@
    }
}

impl SetCode {
    /// The code invariant: ASCII, between 3 and 6 characters.
    pub open spec fn wf(self) -> bool {
        vstd::utf8::is_ascii_chars(self@) && 3 <= self@.len() <= 6
    }

    /// Creates a set code from a str.
    ///
    /// Valid set codes are ASCII between 3 and 6 letters long. If any
    /// of these conditions fails, the conversion fails. The error value
    /// is `None` if the str was not ASCII, otherwise it holds the size
    /// of the str.
    pub fn new(code: &str) -> (r: Result<SetCode, Option<usize>>)
        ensures
            r matches Ok(sc) ==> sc@ == code@ && sc.wf(),
            !code.is_ascii() ==> r == Err::<SetCode, Option<usize>>(None),
            code.is_ascii() && !(3 <= code@.len() <= 6) ==> r == Err::<SetCode, Option<usize>>(
                Some(code@.len() as usize),
            ),
            r is Ok <==> (code.is_ascii() && 3 <= code@.len() <= 6),
    {
        if !code.is_ascii() {
            return Err(None);
        }
        let len = code.unicode_len();
        if 3 <= len && len <= 6 {
            Ok(SetCode { code: code.to_string() })
        } else {
            Err(Some(len))
        }
    }

    /// Returns a reference to the inner set code.
    pub fn get(&self) -> (r: &str)
        ensures
            r@ == self@,
    {
        self.code.as_str()
    }
}

} // verus!
