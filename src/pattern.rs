//! Recognition of the marker lines: class, field, parameter, return,
//! function signature and doc comment.

use vstd::prelude::*;
use vstd::string::*;
use crate::text::{chars_of, has_at, is_sep, run_end, scan_back, scan_run, text_at, trim_hi, trim_lo, Run};

verus! {

/// What one line means to the scanner, as a mathematical value.
pub enum MarkerModel {
    Class { name: Seq<char> },
    Field { name: Seq<char>, optional: bool, ty: Seq<char> },
    Param { name: Seq<char>, ty: Seq<char> },
    Return { ty: Seq<char> },
    Signature { name: Seq<char>, is_instance: bool },
    Doc { text: Seq<char> },
    Other,
}

/// What one line means to the scanner.
#[derive(Clone, Debug)]
pub enum Marker {
    /// `@class Name`
    Class { name: String },
    /// `@field name? type`
    Field { name: String, optional: bool, ty: String },
    /// `@param name? type` (the `?` is dropped)
    Param { name: String, ty: String },
    /// `@return type`
    Return { ty: String },
    /// `function Owner.member` or `function Owner:member`
    Signature { name: String, is_instance: bool },
    /// `--- text`; the text may be empty
    Doc { text: String },
    /// Anything else, blank lines included.
    Other,
}

impl DeepView for Marker {
    type V = MarkerModel;

    open spec fn deep_view(&self) -> MarkerModel {
        match self {
            Marker::Class { name } => MarkerModel::Class { name: name@ },
            Marker::Field { name, optional, ty } => MarkerModel::Field {
                name: name@,
                optional: *optional,
                ty: ty@,
            },
            Marker::Param { name, ty } => MarkerModel::Param { name: name@, ty: ty@ },
            Marker::Return { ty } => MarkerModel::Return { ty: ty@ },
            Marker::Signature { name, is_instance } => MarkerModel::Signature {
                name: name@,
                is_instance: *is_instance,
            },
            Marker::Doc { text } => MarkerModel::Doc { text: text@ },
            Marker::Other => MarkerModel::Other,
        }
    }
}

/// Where the `@` of an annotation would stand: after the leading dashes of
/// the comment and the white space that follows them.
pub open spec fn annotation_start(s: Seq<char>, lo: int, hi: int) -> int {
    run_end(s, run_end(s, lo, hi, Run::Dash), hi, Run::Space)
}

/// Where the argument of annotation `kw` starts, when the trimmed line
/// `s[lo..hi]` holds that annotation followed by white space.
pub open spec fn keyword_arg(s: Seq<char>, lo: int, hi: int, kw: Seq<char>) -> Option<int> {
    let a = annotation_start(s, lo, hi);
    let b = a + kw.len();
    let c = run_end(s, b, hi, Run::Space);
    if has_at(s, a, hi, kw) && b < c {
        Some(c)
    } else {
        None
    }
}

/// A name with an optional `?` after it, white space, and a non-empty free
/// text up to the end: `(name end, optional, text start)`.
pub open spec fn named_text(s: Seq<char>, p: int, hi: int) -> Option<(int, bool, int)> {
    let e = run_end(s, p, hi, Run::Word);
    let optional = e < hi && s[e] == '?';
    let e2 = if optional { e + 1 } else { e };
    let t = run_end(s, e2, hi, Run::Space);
    if p < e && e2 < t && t < hi {
        Some((e, optional, t))
    } else {
        None
    }
}

/// The index of the last separator in `s[c..j]`, or `c - 1` if there is none.
pub open spec fn last_sep(s: Seq<char>, c: int, j: int) -> int
    decreases j - c,
{
    if j <= c || j > s.len() {
        c - 1
    } else if is_sep(s[j - 1]) {
        j - 1
    } else {
        last_sep(s, c, j - 1)
    }
}

pub open spec fn class_of(s: Seq<char>, lo: int, hi: int) -> Option<MarkerModel> {
    match keyword_arg(s, lo, hi, "@class"@) {
        Some(p) => {
            let e = run_end(s, p, hi, Run::ClassName);
            if p < e {
                Some(MarkerModel::Class { name: s.subrange(p, e) })
            } else {
                None
            }
        },
        None => None,
    }
}

pub open spec fn field_of(s: Seq<char>, lo: int, hi: int) -> Option<MarkerModel> {
    match keyword_arg(s, lo, hi, "@field"@) {
        Some(p) => match named_text(s, p, hi) {
            Some((e, optional, t)) => Some(
                MarkerModel::Field { name: s.subrange(p, e), optional, ty: s.subrange(t, hi) },
            ),
            None => None,
        },
        None => None,
    }
}

pub open spec fn param_of(s: Seq<char>, lo: int, hi: int) -> Option<MarkerModel> {
    match keyword_arg(s, lo, hi, "@param"@) {
        Some(p) => match named_text(s, p, hi) {
            Some((e, optional, t)) => Some(
                MarkerModel::Param { name: s.subrange(p, e), ty: s.subrange(t, hi) },
            ),
            None => None,
        },
        None => None,
    }
}

pub open spec fn return_of(s: Seq<char>, lo: int, hi: int) -> Option<MarkerModel> {
    match keyword_arg(s, lo, hi, "@return"@) {
        Some(p) => if p < hi {
            Some(MarkerModel::Return { ty: s.subrange(p, hi) })
        } else {
            None
        },
        None => None,
    }
}

pub open spec fn signature_of(s: Seq<char>, lo: int, hi: int) -> Option<MarkerModel> {
    let b = lo + "function"@.len();
    let c = run_end(s, b, hi, Run::Space);
    let e = run_end(s, c, hi, Run::Path);
    let m = last_sep(s, c, e);
    if has_at(s, lo, hi, "function"@) && b < c && c < m && m + 1 < e {
        Some(MarkerModel::Signature { name: s.subrange(m + 1, e), is_instance: s[m] == ':' })
    } else {
        None
    }
}

pub open spec fn doc_of(s: Seq<char>, lo: int, hi: int) -> Option<MarkerModel> {
    if has_at(s, lo, hi, "---"@) {
        Some(MarkerModel::Doc { text: s.subrange(annotation_start(s, lo, hi), hi) })
    } else {
        None
    }
}

/// The meaning of a line: the first pattern that matches its trimmed text,
/// in the order class, field, parameter, return, signature, doc comment.
pub open spec fn classify(s: Seq<char>) -> MarkerModel {
    let lo = trim_lo(s);
    let hi = trim_hi(s);
    if let Some(m) = class_of(s, lo, hi) {
        m
    } else if let Some(m) = field_of(s, lo, hi) {
        m
    } else if let Some(m) = param_of(s, lo, hi) {
        m
    } else if let Some(m) = return_of(s, lo, hi) {
        m
    } else if let Some(m) = signature_of(s, lo, hi) {
        m
    } else if let Some(m) = doc_of(s, lo, hi) {
        m
    } else {
        MarkerModel::Other
    }
}

pub open spec fn view_opt(r: Option<Marker>) -> Option<MarkerModel> {
    match r {
        Some(m) => Some(m.deep_view()),
        None => None,
    }
}

fn find_keyword_arg(s: &Vec<char>, lo: usize, hi: usize, kw: &str) -> (r: Option<usize>)
    requires
        lo <= hi <= s@.len(),
    ensures
        match r {
            Some(p) => keyword_arg(s@, lo as int, hi as int, kw@) == Some(p as int) && p <= hi,
            None => keyword_arg(s@, lo as int, hi as int, kw@) is None,
        },
{
    let d = scan_run(s, lo, hi, Run::Dash);
    let a = scan_run(s, d, hi, Run::Space);
    if !text_at(s, a, hi, kw) {
        return None;
    }
    let b = a + kw.unicode_len();
    let c = scan_run(s, b, hi, Run::Space);
    if b < c {
        Some(c)
    } else {
        None
    }
}

fn find_named_text(s: &Vec<char>, p: usize, hi: usize) -> (r: Option<(usize, bool, usize)>)
    requires
        p <= hi <= s@.len(),
    ensures
        match r {
            Some((e, optional, t)) => named_text(s@, p as int, hi as int) == Some(
                (e as int, optional, t as int),
            ) && p < e <= t < hi,
            None => named_text(s@, p as int, hi as int) is None,
        },
{
    let e = scan_run(s, p, hi, Run::Word);
    let optional = e < hi && s[e] == '?';
    let e2 = if optional {
        e + 1
    } else {
        e
    };
    let t = scan_run(s, e2, hi, Run::Space);
    if p < e && e2 < t && t < hi {
        Some((e, optional, t))
    } else {
        None
    }
}

fn find_last_sep(s: &Vec<char>, c: usize, e: usize) -> (r: Option<usize>)
    requires
        c <= e <= s@.len(),
    ensures
        match r {
            Some(m) => last_sep(s@, c as int, e as int) == m as int && c <= m < e,
            None => last_sep(s@, c as int, e as int) == c - 1,
        },
{
    let mut j: usize = e;
    while j > c && !(s[j - 1] == '.' || s[j - 1] == ':')
        invariant
            c <= j <= e <= s@.len(),
            last_sep(s@, c as int, e as int) == last_sep(s@, c as int, j as int),
        decreases j,
    {
        j = j - 1;
    }
    if j > c {
        Some(j - 1)
    } else {
        None
    }
}

fn match_class(line: &str, s: &Vec<char>, lo: usize, hi: usize) -> (r: Option<Marker>)
    requires
        s@ == line@,
        lo <= hi <= s@.len(),
    ensures
        view_opt(r) == class_of(s@, lo as int, hi as int),
{
    match find_keyword_arg(s, lo, hi, "@class") {
        Some(p) => {
            let e = scan_run(s, p, hi, Run::ClassName);
            if p < e {
                Some(Marker::Class { name: String::from_str(line.substring_char(p, e)) })
            } else {
                None
            }
        },
        None => None,
    }
}

fn match_field(line: &str, s: &Vec<char>, lo: usize, hi: usize) -> (r: Option<Marker>)
    requires
        s@ == line@,
        lo <= hi <= s@.len(),
    ensures
        view_opt(r) == field_of(s@, lo as int, hi as int),
{
    match find_keyword_arg(s, lo, hi, "@field") {
        Some(p) => match find_named_text(s, p, hi) {
            Some((e, optional, t)) => Some(
                Marker::Field {
                    name: String::from_str(line.substring_char(p, e)),
                    optional,
                    ty: String::from_str(line.substring_char(t, hi)),
                },
            ),
            None => None,
        },
        None => None,
    }
}

fn match_param(line: &str, s: &Vec<char>, lo: usize, hi: usize) -> (r: Option<Marker>)
    requires
        s@ == line@,
        lo <= hi <= s@.len(),
    ensures
        view_opt(r) == param_of(s@, lo as int, hi as int),
{
    match find_keyword_arg(s, lo, hi, "@param") {
        Some(p) => match find_named_text(s, p, hi) {
            Some((e, _optional, t)) => Some(
                Marker::Param {
                    name: String::from_str(line.substring_char(p, e)),
                    ty: String::from_str(line.substring_char(t, hi)),
                },
            ),
            None => None,
        },
        None => None,
    }
}

fn match_return(line: &str, s: &Vec<char>, lo: usize, hi: usize) -> (r: Option<Marker>)
    requires
        s@ == line@,
        lo <= hi <= s@.len(),
    ensures
        view_opt(r) == return_of(s@, lo as int, hi as int),
{
    match find_keyword_arg(s, lo, hi, "@return") {
        Some(p) => if p < hi {
            Some(Marker::Return { ty: String::from_str(line.substring_char(p, hi)) })
        } else {
            None
        },
        None => None,
    }
}

fn match_signature(line: &str, s: &Vec<char>, lo: usize, hi: usize) -> (r: Option<Marker>)
    requires
        s@ == line@,
        lo <= hi <= s@.len(),
    ensures
        view_opt(r) == signature_of(s@, lo as int, hi as int),
{
    if !text_at(s, lo, hi, "function") {
        return None;
    }
    let b = lo + "function".unicode_len();
    let c = scan_run(s, b, hi, Run::Space);
    let e = scan_run(s, c, hi, Run::Path);
    match find_last_sep(s, c, e) {
        Some(m) => if b < c && c < m && m + 1 < e {
            Some(
                Marker::Signature {
                    name: String::from_str(line.substring_char(m + 1, e)),
                    is_instance: s[m] == ':',
                },
            )
        } else {
            None
        },
        None => None,
    }
}

fn match_doc(line: &str, s: &Vec<char>, lo: usize, hi: usize) -> (r: Option<Marker>)
    requires
        s@ == line@,
        lo <= hi <= s@.len(),
    ensures
        view_opt(r) == doc_of(s@, lo as int, hi as int),
{
    if !text_at(s, lo, hi, "---") {
        return None;
    }
    let d = scan_run(s, lo, hi, Run::Dash);
    let a = scan_run(s, d, hi, Run::Space);
    Some(Marker::Doc { text: String::from_str(line.substring_char(a, hi)) })
}

/// Classifies one line of source text.
pub fn classify_line(line: &str) -> (m: Marker)
    ensures
        m.deep_view() == classify(line@),
{
    let s = chars_of(line);
    let lo = scan_run(&s, 0, s.len(), Run::Space);
    let hi = scan_back(&s, lo, s.len());
    if let Some(m) = match_class(line, &s, lo, hi) {
        m
    } else if let Some(m) = match_field(line, &s, lo, hi) {
        m
    } else if let Some(m) = match_param(line, &s, lo, hi) {
        m
    } else if let Some(m) = match_return(line, &s, lo, hi) {
        m
    } else if let Some(m) = match_signature(line, &s, lo, hi) {
        m
    } else if let Some(m) = match_doc(line, &s, lo, hi) {
        m
    } else {
        Marker::Other
    }
}

} // verus!
