//! Lookup queries for the symbol table of a binary, built from the name that
//! a frame recorded. A name in method syntax, with brackets, is taken apart
//! into class, selector and the markers of a block body and of a cold path;
//! any other name is looked up as it stands.

use vstd::prelude::*;
use vstd::string::StringExecFns;
use crate::text::{contains, contains_text, has_char};

verus! {

/// The pattern of a method name: `-` or `+`, class and selector in brackets,
/// then, each optional, the marker of a block body and that of a cold path.
pub const OBJC_METHOD: &'static str =
    r#"[-|+]\[(.*) (.*)][\._]*(block_invoke[\._]*[0-9]*)*[\._]*(cold[\._]*[0-9]*)*"#;

/// The error of the pattern engine, `regex::Error`: what `regex::Regex::new`
/// returns for a pattern that it does not compile. Nothing is claimed of
/// what it holds.
#[verifier::external_type_specification]
#[verifier::external_body]
pub struct ExPatternError(regex::Error);

/// Whether `pattern` is one that `regex::Regex::new` compiles.
pub uninterp spec fn pattern_accepted(pattern: Seq<char>) -> bool;

/// What `regex::Regex::captures` finds for `pattern` in `text`: nothing where
/// the pattern matches nowhere, else the text of each capture group of the
/// leftmost match, group 0 first, a group that took no part in it left empty.
pub uninterp spec fn pattern_captures(pattern: Seq<char>, text: Seq<char>) -> Option<
    Seq<Option<Seq<char>>>,
>;

/// Compiles `pattern` with `regex::Regex::new` and searches `text` with
/// `Regex::captures`. The contract gives both results a name and claims only
/// that they depend on the two texts alone; the error is the one that
/// `Regex::new` returned.
#[verifier::external_body]
fn capture_groups(pattern: &str, text: &str) -> (r: Result<
    Option<Vec<Option<String>>>,
    regex::Error,
>)
    ensures
        r is Ok <==> pattern_accepted(pattern@),
        r matches Ok(found) ==> found.deep_view() == pattern_captures(pattern@, text@),
{
    let re = regex::Regex::new(pattern)?;
    Ok(re.captures(text).map(|c| c.iter().map(|m| m.map(|m| m.as_str().to_string())).collect()))
}

/// Why no query could be built.
#[derive(Debug, Clone, Copy, PartialEq, Eq, Structural)]
pub enum SymbolError {
    /// The pattern of a method name was not accepted by the pattern engine.
    PatternRejected,
}

/// A method name taken apart. A marker holds the text it had in the name
/// (`block_invoke_2`, `cold.1`), and is `None` where the name had none.
#[derive(Debug, Clone)]
pub struct ObjcMethod {
    pub class_name: String,
    pub selector_name: String,
    pub block_invoke: Option<String>,
    pub cold: Option<String>,
}

/// An `ObjcMethod` as plain text.
pub ghost struct ObjcMethodView {
    pub class_name: Seq<char>,
    pub selector_name: Seq<char>,
    pub block_invoke: Option<Seq<char>>,
    pub cold: Option<Seq<char>>,
}

impl View for ObjcMethod {
    type V = ObjcMethodView;

    open spec fn view(&self) -> ObjcMethodView {
        ObjcMethodView {
            class_name: self.class_name@,
            selector_name: self.selector_name@,
            block_invoke: self.block_invoke.deep_view(),
            cold: self.cold.deep_view(),
        }
    }
}

impl DeepView for ObjcMethod {
    type V = ObjcMethodView;

    open spec fn deep_view(&self) -> ObjcMethodView {
        self.view()
    }
}

/// The text of capture group `i`; `None` for a group that is not there or
/// took no part in the match.
pub open spec fn group_text(groups: Seq<Option<Seq<char>>>, i: int) -> Option<Seq<char>> {
    if 0 <= i < groups.len() {
        groups[i]
    } else {
        None
    }
}

/// The method that the capture groups of a match describe: class from group
/// 1, selector from group 2, the markers from groups 3 and 4. None without a
/// class or a selector.
pub open spec fn method_of_groups(groups: Seq<Option<Seq<char>>>) -> Option<ObjcMethodView> {
    match (group_text(groups, 1), group_text(groups, 2)) {
        (Some(class_name), Some(selector_name)) => Some(
            ObjcMethodView {
                class_name,
                selector_name,
                block_invoke: group_text(groups, 3),
                cold: group_text(groups, 4),
            },
        ),
        _ => None,
    }
}

/// The filter for one marker: entries must hold the marker's text where the
/// name had the marker, and must not hold the marker's word where it had
/// none.
pub open spec fn marker_filter(marker: Option<Seq<char>>, word: Seq<char>) -> Seq<char> {
    match marker {
        Some(text) => "~"@ + text,
        None => "~!"@ + word,
    }
}

/// The query for a method: symbol table entries that hold the class and the
/// selector with its closing bracket, filtered by both markers; of these, the
/// address column.
pub open spec fn objc_query_text(method: ObjcMethodView) -> Seq<char> {
    "is ~"@ + method.class_name + "~"@ + method.selector_name + "]"@ + marker_filter(
        method.block_invoke,
        "block_invoke"@,
    ) + marker_filter(method.cold, "cold"@) + "[2]"@
}

/// The query for a plain name: entries that hold the name, without those of
/// block bodies unless the name itself is one; of these, the address column
/// of the first.
pub open spec fn plain_query_text(name: Seq<char>) -> Seq<char> {
    "is ~"@ + name + "~"@ + (if contains_text(name, "block_invoke"@) {
        ""@
    } else {
        "!"@
    }) + "block_invoke"@ + "[2]:0"@
}

/// The query that a match of the method pattern leads to: none where the
/// pattern did not match or the match names no method.
pub open spec fn objc_query_of_match(found: Option<Seq<Option<Seq<char>>>>) -> Option<Seq<char>> {
    match found {
        Some(groups) => match method_of_groups(groups) {
            Some(method) => Some(objc_query_text(method)),
            None => None,
        },
        None => None,
    }
}

/// The query for a recorded name, given what the pattern engine says of the
/// method pattern and of the name. A name with a bracket is a method name: it
/// needs the pattern, and has no query where the pattern does not match it.
/// Any other name always has one.
pub open spec fn symbol_query_of(
    symbol: Seq<char>,
    accepted: bool,
    found: Option<Seq<Option<Seq<char>>>>,
) -> Result<Option<Seq<char>>, SymbolError> {
    if symbol.contains('[') {
        if accepted {
            Ok(objc_query_of_match(found))
        } else {
            Err(SymbolError::PatternRejected)
        }
    } else {
        Ok(Some(plain_query_text(symbol)))
    }
}

/// The text that a query result holds.
pub open spec fn query_view(r: Result<Option<String>, SymbolError>) -> Result<
    Option<Seq<char>>,
    SymbolError,
> {
    match r {
        Ok(q) => Ok(q.deep_view()),
        Err(e) => Err(e),
    }
}

/// The text of capture group `i`, copied.
fn group_at(groups: &Vec<Option<String>>, i: usize) -> (r: Option<String>)
    ensures
        r.deep_view() == group_text(groups.deep_view(), i as int),
{
    if i < groups.len() {
        match &groups[i] {
            Some(s) => Some(s.clone()),
            None => None,
        }
    } else {
        None
    }
}

/// Takes the method out of the capture groups of a match.
pub fn method_from_groups(groups: &Vec<Option<String>>) -> (r: Option<ObjcMethod>)
    ensures
        r.is_some() == method_of_groups(groups.deep_view()).is_some(),
        r matches Some(method) ==> Some(method@) == method_of_groups(groups.deep_view()),
{
    let class_name = group_at(groups, 1);
    let selector_name = group_at(groups, 2);
    match (class_name, selector_name) {
        (Some(class_name), Some(selector_name)) => Some(
            ObjcMethod {
                class_name,
                selector_name,
                block_invoke: group_at(groups, 3),
                cold: group_at(groups, 4),
            },
        ),
        _ => None,
    }
}

/// Appends the filter for one marker to `query`.
fn push_marker_filter(query: &mut String, marker: &Option<String>, word: &str)
    ensures
        final(query)@ == old(query)@ + marker_filter(marker.deep_view(), word@),
{
    match marker {
        Some(text) => {
            query.append("~");
            query.append(text.as_str());
        },
        None => {
            query.append("~!");
            query.append(word);
        },
    }
    assert(query@ =~= old(query)@ + marker_filter(marker.deep_view(), word@));
}

/// The query that finds the address of `method`.
pub fn objc_query(method: &ObjcMethod) -> (query: String)
    ensures
        query@ == objc_query_text(method@),
{
    let mut query = String::new();
    query.append("is ~");
    query.append(method.class_name.as_str());
    query.append("~");
    query.append(method.selector_name.as_str());
    query.append("]");
    push_marker_filter(&mut query, &method.block_invoke, "block_invoke");
    push_marker_filter(&mut query, &method.cold, "cold");
    query.append("[2]");
    assert(query@ =~= objc_query_text(method@));
    query
}

/// The query that finds the address of the plain name `name`.
pub fn plain_query(name: &str) -> (query: String)
    ensures
        query@ == plain_query_text(name@),
{
    let mut query = String::new();
    query.append("is ~");
    query.append(name);
    query.append("~");
    if contains(name, "block_invoke") {
        query.append("");
    } else {
        query.append("!");
    }
    query.append("block_invoke");
    query.append("[2]:0");
    assert(query@ =~= plain_query_text(name@));
    query
}

/// Takes a method name apart. `Ok(None)` where the name does not fit the
/// method pattern.
pub fn parse_objc_method(symbol: &str) -> (r: Result<Option<ObjcMethod>, SymbolError>)
    ensures
        r is Ok <==> pattern_accepted(OBJC_METHOD@),
        r matches Ok(parsed) ==> parsed.deep_view() == (match pattern_captures(
            OBJC_METHOD@,
            symbol@,
        ) {
            Some(groups) => method_of_groups(groups),
            None => None,
        }),
{
    match capture_groups(OBJC_METHOD, symbol) {
        Ok(Some(groups)) => Ok(method_from_groups(&groups)),
        Ok(None) => Ok(None),
        Err(_) => Err(SymbolError::PatternRejected),
    }
}

/// The query that finds the address of the symbol that a frame recorded as
/// `symbol`. `Ok(None)` where a name in method syntax does not fit the method
/// pattern: there is nothing to look up then.
pub fn symbol_query(symbol: &str) -> (r: Result<Option<String>, SymbolError>)
    ensures
        query_view(r) == symbol_query_of(
            symbol@,
            pattern_accepted(OBJC_METHOD@),
            pattern_captures(OBJC_METHOD@, symbol@),
        ),
{
    if has_char(symbol, '[') {
        match parse_objc_method(symbol) {
            Ok(Some(method)) => Ok(Some(objc_query(&method))),
            Ok(None) => Ok(None),
            Err(error) => Err(error),
        }
    } else {
        Ok(Some(plain_query(symbol)))
    }
}

} // verus!
