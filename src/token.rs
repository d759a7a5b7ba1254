use vstd::prelude::*;
use vstd::string::{StringExecFns, StringSliceAdditionalSpecFns};

use crate::error::{ClientError, TokenStage};

verus! {

/// The name of the hidden login-form field that carries the token.
pub const EXECUTION_FIELD: &'static str = "execution";

/// The tag of the element that carries the token.
pub const INPUT_TAG: &'static str = "input";

/// The attribute whose text is the token.
pub const VALUE_ATTRIBUTE: &'static str = "value";

/// What tl reads from `html` for `selector`: the text of attribute
/// `attribute` of the first matching element, or the stage that failed.
pub uninterp spec fn probe_of(html: Seq<char>, selector: Seq<char>, attribute: Seq<char>) -> Result<Seq<char>, TokenStage>;

/// The selector for the elements of tag `tag` whose `name` attribute is `field`.
pub open spec fn selector_of(tag: Seq<char>, field: Seq<char>) -> Seq<char> {
    tag + "[name=\""@ + field + "\"]"@
}

/// A byte allowed in a field name: an ASCII letter or digit, `-` or `_`.
pub open spec fn is_name_byte(b: u8) -> bool {
    (48 <= b <= 57) || (65 <= b <= 90) || (97 <= b <= 122) || b == 45 || b == 95
}

/// Whether `name` is a plain field name: a single selector identifier, so that
/// the selector built from it is one attribute test and nothing more.
pub open spec fn is_field_name(name: &str) -> bool {
    forall|i: int| 0 <= i < name.spec_bytes().len() ==> is_name_byte(#[trigger] name.spec_bytes()[i])
}

/// Whether `selector` is the selector of `input` elements named by some plain field name.
pub open spec fn is_field_selector(selector: Seq<char>) -> bool {
    exists|f: &str| is_field_name(f) && selector == selector_of(INPUT_TAG@, f@)
}

/// Tests whether every byte of `name` may stand in a field name.
pub fn check_field_name(name: &str) -> (r: bool)
    ensures
        r == is_field_name(name),
{
    let bytes = name.as_bytes();
    let mut i: usize = 0;
    while i < bytes.len()
        invariant
            i <= bytes@.len(),
            bytes@ == name.spec_bytes(),
            forall|k: int| 0 <= k < i ==> is_name_byte(#[trigger] bytes@[k]),
        decreases bytes@.len() - i,
    {
        let b = bytes[i];
        if !((48 <= b && b <= 57) || (65 <= b && b <= 90) || (97 <= b && b <= 122) || b == 45 || b == 95) {
            assert(!is_name_byte(name.spec_bytes()[i as int]));
            return false;
        }
        i += 1;
    }
    true
}

/// Builds the selector for the elements of tag `tag` named `field`.
pub fn field_selector(tag: &str, field: &str) -> (r: String)
    ensures
        r@ == selector_of(tag@, field@),
{
    let mut selector = tag.to_owned();
    selector.append("[name=\"");
    selector.append(field);
    selector.append("\"]");
    selector
}

/// Relies on tl: `parse`, `VDom::query_selector` and its first match,
/// `NodeHandle::get`, `Node::as_tag`, `Attributes::get` and
/// `Bytes::as_utf8_str`. The result depends on the three strings alone.
#[verifier::external_body]
fn probe_attribute(html: &str, selector: &str, attribute: &str) -> (r: Result<String, TokenStage>)
    requires
        is_field_selector(selector@),
    ensures
        match probe_of(html@, selector@, attribute@) {
            Ok(v) => r matches Ok(s) && s@ == v,
            Err(e) => r == Err::<String, TokenStage>(e),
        },
{
    let dom = tl::parse(html, tl::ParserOptions::default()).map_err(|_| TokenStage::Unparsed)?;
    let mut matches = dom.query_selector(selector).ok_or(TokenStage::InvalidSelector)?;
    let handle = matches.next().ok_or(TokenStage::NoMatch)?;
    let node = handle.get(dom.parser()).ok_or(TokenStage::NotAnElement)?;
    let tag = node.as_tag().ok_or(TokenStage::NotAnElement)?;
    let value = tag.attributes().get(attribute).ok_or(TokenStage::NoValueAttribute)?;
    Ok(value.ok_or(TokenStage::ValueWithoutText)?.as_utf8_str().into_owned())
}

/// The outcome of extracting field `field` from `html`: the value of the
/// first `input` element named `field`, or `TokenNotFound` with its stage.
/// A name that is not a plain field name gives `InvalidSelector`.
pub open spec fn extraction_of(html: Seq<char>, field: &str) -> Result<Seq<char>, ClientError> {
    if !is_field_name(field) {
        Err(ClientError::TokenNotFound(TokenStage::InvalidSelector))
    } else {
        match probe_of(html, selector_of(INPUT_TAG@, field@), VALUE_ATTRIBUTE@) {
            Ok(v) => Ok(v),
            Err(stage) => Err(ClientError::TokenNotFound(stage)),
        }
    }
}

/// Finds the first `input` element whose `name` is `field_name` and returns
/// its `value` attribute.
pub fn extract(html: &str, field_name: &str) -> (r: Result<String, ClientError>)
    ensures
        match extraction_of(html@, field_name) {
            Ok(v) => r matches Ok(s) && s@ == v,
            Err(e) => r == Err::<String, ClientError>(e),
        },
{
    if !check_field_name(field_name) {
        return Err(ClientError::TokenNotFound(TokenStage::InvalidSelector));
    }
    let selector = field_selector(INPUT_TAG, field_name);
    assert(is_field_name(field_name) && selector@ == selector_of(INPUT_TAG@, field_name@));
    match probe_attribute(html, selector.as_str(), VALUE_ATTRIBUTE) {
        Ok(v) => Ok(v),
        Err(stage) => Err(ClientError::TokenNotFound(stage)),
    }
}

/// Reads the login token: the `execution` field of the login page.
pub fn extract_token(html: &str) -> (r: Result<String, ClientError>)
    ensures
        match extraction_of(html@, EXECUTION_FIELD) {
            Ok(v) => r matches Ok(s) && s@ == v,
            Err(e) => r == Err::<String, ClientError>(e),
        },
{
    extract(html, EXECUTION_FIELD)
}

} // verus!
