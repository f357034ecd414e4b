//! Text that comes from Foundation objects.
use vstd::prelude::*;
use vstd::string::*;

verus! {

/// What an `NSString` pointer was found to hold.
pub enum NsString {
    /// The pointer is nil.
    Nil,
    /// The string exists, but has no UTF-8 form.
    NoUtf8,
    /// The bytes of `UTF8String`, without the closing NUL.
    Utf8(Vec<u8>),
}

/// What an `NSError` pointer was found to hold.
pub enum NsError {
    /// The pointer is nil.
    Nil,
    /// The error's `localizedDescription`.
    Described(NsString),
}

/// The text that `String::from_utf8_lossy` makes of `bytes`.
pub uninterp spec fn utf8_lossy(bytes: Seq<u8>) -> Seq<char>;

/// Calls `String::from_utf8_lossy`: reads `bytes` as UTF-8, with each ill-formed
/// part replaced by U+FFFD. The text is named [`utf8_lossy`]; of it only this is
/// claimed, that well-formed bytes are decoded as they stand, and that the text
/// of ill-formed ones has a replacement character in it. How many there are, and
/// where, is left unsaid.
#[verifier::external_body]
fn from_utf8_lossy(bytes: &[u8]) -> (text: String)
    ensures
        text@ == utf8_lossy(bytes@),
        vstd::utf8::valid_utf8(bytes@) ==> text@ == vstd::utf8::decode_utf8(bytes@),
        !vstd::utf8::valid_utf8(bytes@) ==> text@.contains('\u{FFFD}'),
{
    String::from_utf8_lossy(bytes).into_owned()
}

impl NsString {
    /// The text of the string: empty where there is none to read.
    pub open spec fn text(self) -> Seq<char> {
        match self {
            NsString::Nil => Seq::empty(),
            NsString::NoUtf8 => Seq::empty(),
            NsString::Utf8(utf8) => utf8_lossy(utf8@),
        }
    }
}

impl NsError {
    /// The description of the error, or `nil` where there is no error object.
    pub open spec fn text(self) -> Seq<char> {
        match self {
            NsError::Nil => "nil"@,
            NsError::Described(description) => description.text(),
        }
    }
}

/// The text of an `NSString`: empty where the pointer or its UTF-8 form is nil.
pub fn ns_string_to_rust(s: &NsString) -> (text: String)
    ensures
        text@ == s.text(),
        s is Nil || s is NoUtf8 ==> text@.len() == 0,
        s matches NsString::Utf8(utf8) ==> text@ == utf8_lossy(utf8@),
        s matches NsString::Utf8(utf8) ==> vstd::utf8::valid_utf8(utf8@) ==> text@
            == vstd::utf8::decode_utf8(utf8@),
        s matches NsString::Utf8(utf8) ==> !vstd::utf8::valid_utf8(utf8@) ==> text@.contains(
            '\u{FFFD}',
        ),
{
    match s {
        NsString::Nil => String::new(),
        NsString::NoUtf8 => String::new(),
        NsString::Utf8(utf8) => from_utf8_lossy(utf8.as_slice()),
    }
}

/// The description of an `NSError`, or `nil` where the pointer is nil.
pub fn ns_error_string(err: &NsError) -> (text: String)
    ensures
        text@ == err.text(),
        err is Nil ==> text@ == "nil"@,
        err matches NsError::Described(NsString::Utf8(utf8)) ==> text@ == utf8_lossy(utf8@),
        (err matches NsError::Described(NsString::Nil)) || (err matches NsError::Described(
            NsString::NoUtf8,
        )) ==> text@.len() == 0,
        err matches NsError::Described(NsString::Utf8(utf8)) ==> vstd::utf8::valid_utf8(utf8@)
            ==> text@ == vstd::utf8::decode_utf8(utf8@),
        err matches NsError::Described(NsString::Utf8(utf8)) ==> !vstd::utf8::valid_utf8(utf8@)
            ==> text@.contains('\u{FFFD}'),
{
    match err {
        NsError::Nil => "nil".to_owned(),
        NsError::Described(description) => ns_string_to_rust(description),
    }
}

/// An error is told in its own words: the whole text of its description, which is
/// empty where there is none to read; a missing error is called `nil`.
pub proof fn law_error_is_told_in_its_own_words(utf8: Vec<u8>)
    ensures
        NsError::Nil.text() == "nil"@,
        NsError::Described(NsString::Nil).text().len() == 0,
        NsError::Described(NsString::NoUtf8).text().len() == 0,
        NsError::Described(NsString::Utf8(utf8)).text() == utf8_lossy(utf8@),
        NsString::Utf8(utf8).text() == utf8_lossy(utf8@),
{
}

} // verus!
