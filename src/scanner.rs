//! The per-file state machine that attributes doc lines, parameters and
//! returns to the fields and methods of the open class.

use vstd::prelude::*;
use crate::model::{ClassDoc, ClassModel, FieldDoc, FieldModel, MethodDoc, MethodModel, ParamDoc, ParamModel};
use crate::pattern::{classify, classify_line, Marker, MarkerModel};

verus! {

/// The scanner's state as a mathematical value.
pub struct ScanModel {
    /// The class whose fields and methods are being collected, if any.
    pub open: Option<ClassModel>,
    /// Classes already closed by a later class marker, in order.
    pub emitted: Seq<ClassModel>,
    /// Pending doc lines.
    pub docs: Seq<Seq<char>>,
    /// Pending parameters.
    pub params: Seq<ParamModel>,
    /// Pending return types.
    pub returns: Seq<Seq<char>>,
}

pub open spec fn initial() -> ScanModel {
    ScanModel { open: None, emitted: seq![], docs: seq![], params: seq![], returns: seq![] }
}

/// One transition of the state machine.
///
/// A class marker closes the open class and clears the pending doc lines,
/// leaving pending parameters and returns in place for the next signature; a
/// field takes the pending doc lines; a signature takes the pending doc lines,
/// parameters and returns; any line that is no marker clears all three.
/// Fields and signatures seen while no class is open are dropped.
pub open spec fn step(st: ScanModel, m: MarkerModel) -> ScanModel {
    match m {
        MarkerModel::Class { name } => ScanModel {
            open: Some(ClassModel { name, fields: seq![], methods: seq![] }),
            emitted: finished(st),
            docs: seq![],
            ..st
        },
        MarkerModel::Field { name, optional, ty } => ScanModel {
            open: match st.open {
                Some(c) => Some(
                    ClassModel {
                        fields: c.fields.push(FieldModel { name, optional, ty, doc: st.docs }),
                        ..c
                    },
                ),
                None => None,
            },
            docs: seq![],
            ..st
        },
        MarkerModel::Param { name, ty } => ScanModel {
            params: st.params.push(ParamModel { name, ty }),
            ..st
        },
        MarkerModel::Return { ty } => ScanModel { returns: st.returns.push(ty), ..st },
        MarkerModel::Signature { name, is_instance } => ScanModel {
            open: match st.open {
                Some(c) => Some(
                    ClassModel {
                        methods: c.methods.push(
                            MethodModel {
                                name,
                                is_instance,
                                params: st.params,
                                returns: st.returns,
                                doc: st.docs,
                            },
                        ),
                        ..c
                    },
                ),
                None => None,
            },
            docs: seq![],
            params: seq![],
            returns: seq![],
            ..st
        },
        MarkerModel::Doc { text } => if text.len() > 0 {
            ScanModel { docs: st.docs.push(text), ..st }
        } else {
            st
        },
        MarkerModel::Other => ScanModel { docs: seq![], params: seq![], returns: seq![], ..st },
    }
}

/// The classes emitted so far, with the open one closed at the end.
pub open spec fn finished(st: ScanModel) -> Seq<ClassModel> {
    match st.open {
        Some(c) => st.emitted.push(c),
        None => st.emitted,
    }
}

/// The state after feeding `lines` in order to a fresh scanner.
pub open spec fn scan_state(lines: Seq<Seq<char>>) -> ScanModel
    decreases lines.len(),
{
    if lines.len() == 0 {
        initial()
    } else {
        step(scan_state(lines.drop_last()), classify(lines.last()))
    }
}

/// The classes documented by the lines of one file, in order.
pub open spec fn scan(lines: Seq<Seq<char>>) -> Seq<ClassModel> {
    finished(scan_state(lines))
}

fn empty_vec<T: DeepView>() -> (r: Vec<T>)
    ensures
        r.deep_view() == Seq::<T::V>::empty(),
{
    let r: Vec<T> = Vec::new();
    assert(r.deep_view() =~= Seq::<T::V>::empty());
    r
}

fn push_item<T: DeepView>(v: Vec<T>, x: T) -> (r: Vec<T>)
    ensures
        r.deep_view() == v.deep_view().push(x.deep_view()),
{
    let ghost before = v.deep_view();
    let ghost item = x.deep_view();
    let mut r = v;
    r.push(x);
    assert(r.deep_view() =~= before.push(item));
    r
}

/// The scanner of one file: feed it the file's lines in order, then finish it.
pub struct Scanner {
    open: Option<ClassDoc>,
    emitted: Vec<ClassDoc>,
    docs: Vec<String>,
    params: Vec<ParamDoc>,
    returns: Vec<String>,
}

impl DeepView for Scanner {
    type V = ScanModel;

    closed spec fn deep_view(&self) -> ScanModel {
        ScanModel {
            open: self.open.deep_view(),
            emitted: self.emitted.deep_view(),
            docs: self.docs.deep_view(),
            params: self.params.deep_view(),
            returns: self.returns.deep_view(),
        }
    }
}

impl Scanner {
    /// A scanner with no open class and nothing pending.
    pub fn new() -> (r: Scanner)
        ensures
            r.deep_view() == initial(),
    {
        Scanner {
            open: None,
            emitted: empty_vec(),
            docs: empty_vec(),
            params: empty_vec(),
            returns: empty_vec(),
        }
    }

    /// Takes one line into account.
    pub fn feed(self, line: &str) -> (r: Scanner)
        ensures
            r.deep_view() == step(self.deep_view(), classify(line@)),
    {
        let Scanner { open, emitted, docs, params, returns: rets } = self;
        match classify_line(line) {
            Marker::Class { name } => {
                let emitted = match open {
                    Some(c) => push_item(emitted, c),
                    None => emitted,
                };
                Scanner {
                    open: Some(ClassDoc { name, fields: empty_vec(), methods: empty_vec() }),
                    emitted,
                    docs: empty_vec(),
                    params,
                    returns: rets,
                }
            },
            Marker::Field { name, optional, ty } => {
                let open = match open {
                    Some(c) => {
                        let ClassDoc { name: cname, fields, methods } = c;
                        let f = FieldDoc { name, optional, ty, doc: docs };
                        Some(ClassDoc { name: cname, fields: push_item(fields, f), methods })
                    },
                    None => None,
                };
                Scanner { open, emitted, docs: empty_vec(), params, returns: rets }
            },
            Marker::Param { name, ty } => {
                let params = push_item(params, ParamDoc { name, ty });
                Scanner { open, emitted, docs, params, returns: rets }
            },
            Marker::Return { ty } => {
                let rets = push_item(rets, ty);
                Scanner { open, emitted, docs, params, returns: rets }
            },
            Marker::Signature { name, is_instance } => {
                let open = match open {
                    Some(c) => {
                        let ClassDoc { name: cname, fields, methods } = c;
                        let m = MethodDoc { name, is_instance, params, returns: rets, doc: docs };
                        Some(ClassDoc { name: cname, fields, methods: push_item(methods, m) })
                    },
                    None => None,
                };
                Scanner {
                    open,
                    emitted,
                    docs: empty_vec(),
                    params: empty_vec(),
                    returns: empty_vec(),
                }
            },
            Marker::Doc { text } => {
                if !text.as_str().is_empty() {
                    let docs = push_item(docs, text);
                    Scanner { open, emitted, docs, params, returns: rets }
                } else {
                    Scanner { open, emitted, docs, params, returns: rets }
                }
            },
            Marker::Other => Scanner {
                open,
                emitted,
                docs: empty_vec(),
                params: empty_vec(),
                returns: empty_vec(),
            },
        }
    }

    /// Closes the open class, if any, and hands back every class in order.
    pub fn finish(self) -> (r: Vec<ClassDoc>)
        ensures
            r.deep_view() == finished(self.deep_view()),
    {
        let Scanner { open, emitted, docs: _, params: _, returns: _ } = self;
        match open {
            Some(c) => push_item(emitted, c),
            None => emitted,
        }
    }
}

/// The classes documented by the lines of one file, in order.
pub fn scan_lines(lines: &Vec<String>) -> (r: Vec<ClassDoc>)
    ensures
        r.deep_view() == scan(lines.deep_view()),
{
    let mut sc = Scanner::new();
    let mut i: usize = 0;
    while i < lines.len()
        invariant
            i <= lines@.len(),
            sc.deep_view() == scan_state(lines.deep_view().subrange(0, i as int)),
        decreases lines@.len() - i,
    {
        let ghost prev = lines.deep_view().subrange(0, i as int);
        sc = sc.feed(lines[i].as_str());
        proof {
            let next = lines.deep_view().subrange(0, i + 1);
            assert(next.drop_last() =~= prev);
        }
        i = i + 1;
    }
    assert(lines.deep_view().subrange(0, i as int) =~= lines.deep_view());
    sc.finish()
}

} // verus!
