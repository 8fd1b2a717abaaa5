//! Symbol extraction: a pre-order, left-to-right walk over the program tree
//! the external compiler produces, collecting one descriptor per declaration.
//!
//! A tree node is either a string, a nested sequence, or some other atom.  A
//! sequence whose first element is a string is a tagged instruction; the tag
//! decides which positional arguments name a declaration and which hold
//! nested sub-trees to descend into.  Unrecognized tags and missing arguments
//! are silently skipped: the walk never fails.

use vstd::prelude::*;

verus! {

/// One node of the generic program tree.
pub enum Node {
    /// A string: a command tag or a name.
    Text(Vec<u8>),
    /// An ordered sequence: a tagged instruction or a list of siblings.
    List(Vec<Node>),
    /// Any other value (number, boolean, null, ...): never a declaration.
    Other,
}

/// The kind of a declared symbol.
#[derive(Clone, Copy, Debug, PartialEq, Eq, Structural)]
pub enum SymbolKind {
    Variable,
    Function,
    Class,
    Namespace,
}

/// A named, kinded entry offered for completion.  The insertion template is
/// present only for functions, as a call skeleton with a placeholder cursor.
#[derive(Clone, Debug, PartialEq, Eq)]
pub struct SymbolDescriptor {
    pub name: Vec<u8>,
    pub kind: SymbolKind,
    pub detail: Option<Vec<u8>>,
    pub insert: Option<Vec<u8>>,
}

/// Mathematical image of a `SymbolDescriptor`.
#[verifier::ext_equal]
pub struct SymbolView {
    pub name: Seq<u8>,
    pub kind: SymbolKind,
    pub detail: Option<Seq<u8>>,
    pub insert: Option<Seq<u8>>,
}

impl View for SymbolDescriptor {
    type V = SymbolView;

    open spec fn view(&self) -> SymbolView {
        SymbolView {
            name: self.name@,
            kind: self.kind,
            detail: match self.detail {
                Some(d) => Some(d@),
                None => None,
            },
            insert: match self.insert {
                Some(t) => Some(t@),
                None => None,
            },
        }
    }
}

/// The views of a sequence of descriptors.
pub open spec fn views_of(s: Seq<SymbolDescriptor>) -> Seq<SymbolView> {
    s.map_values(|d: SymbolDescriptor| d@)
}

pub open spec fn tag_set() -> Seq<u8> {
    seq![115u8, 101u8, 116u8]  // "set"
}

pub open spec fn tag_function() -> Seq<u8> {
    seq![102u8, 117u8, 110u8, 99u8, 116u8, 105u8, 111u8, 110u8]  // "function"
}

pub open spec fn tag_class() -> Seq<u8> {
    seq![99u8, 108u8, 97u8, 115u8, 115u8]  // "class"
}

pub open spec fn tag_namespace() -> Seq<u8> {
    seq![110u8, 97u8, 109u8, 101u8, 115u8, 112u8, 97u8, 99u8, 101u8]  // "namespace"
}

pub open spec fn tag_if() -> Seq<u8> {
    seq![105u8, 102u8]  // "if"
}

pub open spec fn tag_while() -> Seq<u8> {
    seq![119u8, 104u8, 105u8, 108u8, 101u8]  // "while"
}

pub open spec fn tag_for_range() -> Seq<u8> {
    seq![102u8, 111u8, 114u8, 95u8, 114u8, 97u8, 110u8, 103u8, 101u8]  // "for_range"
}

pub open spec fn detail_variable() -> Seq<u8> {
    seq![86u8, 97u8, 114u8, 105u8, 97u8, 98u8, 108u8, 101u8]  // "Variable"
}

pub open spec fn detail_function() -> Seq<u8> {
    seq![70u8, 117u8, 110u8, 99u8, 116u8, 105u8, 111u8, 110u8]  // "Function"
}

pub open spec fn detail_class() -> Seq<u8> {
    seq![67u8, 108u8, 97u8, 115u8, 115u8]  // "Class"
}

pub open spec fn detail_namespace() -> Seq<u8> {
    seq![78u8, 97u8, 109u8, 101u8, 115u8, 112u8, 97u8, 99u8, 101u8]  // "Namespace"
}

/// The call-skeleton suffix `"($0)"` appended to a function's name.
pub open spec fn snippet_suffix() -> Seq<u8> {
    seq![40u8, 36u8, 48u8, 41u8]  // "($0)"
}

pub open spec fn variable_symbol(name: Seq<u8>) -> SymbolView {
    SymbolView { name, kind: SymbolKind::Variable, detail: Some(detail_variable()), insert: None }
}

pub open spec fn function_symbol(name: Seq<u8>) -> SymbolView {
    SymbolView {
        name,
        kind: SymbolKind::Function,
        detail: Some(detail_function()),
        insert: Some(name + snippet_suffix()),
    }
}

pub open spec fn class_symbol(name: Seq<u8>) -> SymbolView {
    SymbolView { name, kind: SymbolKind::Class, detail: Some(detail_class()), insert: None }
}

pub open spec fn namespace_symbol(name: Seq<u8>) -> SymbolView {
    SymbolView { name, kind: SymbolKind::Namespace, detail: Some(detail_namespace()), insert: None }
}

/// The tag of a tagged instruction: the text of its first element.
pub open spec fn tag_of(arr: Seq<Node>) -> Seq<u8> {
    match arr[0] {
        Node::Text(t) => t@,
        _ => Seq::empty(),
    }
}

/// The name at positional argument `i`, if that argument is present and is a
/// string.
pub open spec fn arg_name(arr: Seq<Node>, i: int) -> Option<Seq<u8>> {
    if 0 <= i < arr.len() {
        match arr[i] {
            Node::Text(t) => Some(t@),
            _ => None,
        }
    } else {
        None
    }
}

/// All symbols declared in a tree node, in pre-order, duplicates kept.
pub open spec fn symbols_of(n: Node) -> Seq<SymbolView>
    decreases n, 0int, 0int,
{
    match n {
        Node::List(arr) => {
            if arr@.len() > 0 && arr@[0] is Text {
                instruction_symbols(arr@)
            } else {
                range_symbols(arr@, 0)
            }
        },
        _ => Seq::empty(),
    }
}

/// Symbols of one tagged instruction, dispatched on its tag.
pub open spec fn instruction_symbols(arr: Seq<Node>) -> Seq<SymbolView>
    decreases arr, 2int, 0int,
{
    let tag = tag_of(arr);
    if tag == tag_set() {
        match arg_name(arr, 2) {
            Some(name) => seq![variable_symbol(name)],
            None => Seq::empty(),
        }
    } else if tag == tag_function() {
        let head = match arg_name(arr, 2) {
            Some(name) => seq![function_symbol(name)],
            None => Seq::empty(),
        };
        let body = if arr.len() > 5 {
            symbols_of(arr[5])
        } else {
            Seq::empty()
        };
        head + body
    } else if tag == tag_class() {
        match arg_name(arr, 2) {
            Some(name) => seq![class_symbol(name)],
            None => Seq::empty(),
        }
    } else if tag == tag_namespace() {
        let head = match arg_name(arr, 2) {
            Some(name) => seq![namespace_symbol(name)],
            None => Seq::empty(),
        };
        let body = if arr.len() > 3 {
            symbols_of(arr[3])
        } else {
            Seq::empty()
        };
        head + body
    } else if tag == tag_if() || tag == tag_while() || tag == tag_for_range() {
        range_symbols(arr, 2)
    } else {
        Seq::empty()
    }
}

/// Concatenated symbols of the elements of `items` from position `i` on.
pub open spec fn range_symbols(items: Seq<Node>, i: int) -> Seq<SymbolView>
    decreases items, 1int, items.len() - i,
{
    if 0 <= i < items.len() {
        symbols_of(items[i]) + range_symbols(items, i + 1)
    } else {
        Seq::empty()
    }
}

pub(crate) fn clone_bytes(v: &Vec<u8>) -> (r: Vec<u8>)
    ensures
        r@ == v@,
{
    let r = v.clone();
    proof {
        assert(r@ =~= v@);
    }
    r
}

/// Byte-for-byte equality of two texts.
fn bytes_eq(a: &[u8], b: &[u8]) -> (r: bool)
    ensures
        r == (a@ == b@),
{
    if a.len() != b.len() {
        return false;
    }
    let n = a.len();
    let mut i: usize = 0;
    while i < n
        invariant
            0 <= i <= n,
            n == a@.len() == b@.len(),
            forall|k: int| 0 <= k < i ==> a@[k] == b@[k],
        decreases n - i,
    {
        if a[i] != b[i] {
            return false;
        }
        i += 1;
    }
    proof {
        assert(a@ =~= b@);
    }
    true
}

fn make_variable(name: &Vec<u8>) -> (d: SymbolDescriptor)
    ensures
        d@ == variable_symbol(name@),
{
    let detail: Vec<u8> = vec![86u8, 97u8, 114u8, 105u8, 97u8, 98u8, 108u8, 101u8]; // "Variable"
    let d = SymbolDescriptor {
        name: clone_bytes(name),
        kind: SymbolKind::Variable,
        detail: Some(detail),
        insert: None,
    };
    proof {
        assert(d@.detail->0 =~= detail_variable());
        assert(d@ =~= variable_symbol(name@));
    }
    d
}

fn make_function(name: &Vec<u8>) -> (d: SymbolDescriptor)
    ensures
        d@ == function_symbol(name@),
{
    let detail: Vec<u8> = vec![70u8, 117u8, 110u8, 99u8, 116u8, 105u8, 111u8, 110u8]; // "Function"
    let mut snippet = clone_bytes(name);
    snippet.push(40u8);
    snippet.push(36u8);
    snippet.push(48u8);
    snippet.push(41u8);
    proof {
        assert(snippet@ =~= name@ + snippet_suffix());
    }
    let d = SymbolDescriptor {
        name: clone_bytes(name),
        kind: SymbolKind::Function,
        detail: Some(detail),
        insert: Some(snippet),
    };
    proof {
        assert(d@.detail->0 =~= detail_function());
        assert(d@ =~= function_symbol(name@));
    }
    d
}

fn make_class(name: &Vec<u8>) -> (d: SymbolDescriptor)
    ensures
        d@ == class_symbol(name@),
{
    let detail: Vec<u8> = vec![67u8, 108u8, 97u8, 115u8, 115u8]; // "Class"
    let d = SymbolDescriptor {
        name: clone_bytes(name),
        kind: SymbolKind::Class,
        detail: Some(detail),
        insert: None,
    };
    proof {
        assert(d@.detail->0 =~= detail_class());
        assert(d@ =~= class_symbol(name@));
    }
    d
}

fn make_namespace(name: &Vec<u8>) -> (d: SymbolDescriptor)
    ensures
        d@ == namespace_symbol(name@),
{
    let detail: Vec<u8> = vec![78u8, 97u8, 109u8, 101u8, 115u8, 112u8, 97u8, 99u8, 101u8]; // "Namespace"
    let d = SymbolDescriptor {
        name: clone_bytes(name),
        kind: SymbolKind::Namespace,
        detail: Some(detail),
        insert: None,
    };
    proof {
        assert(d@.detail->0 =~= detail_namespace());
        assert(d@ =~= namespace_symbol(name@));
    }
    d
}

/// Collect the symbols of every element of `items` from `from` on, in order.
fn collect_range(items: &Vec<Node>, from: usize) -> (out: Vec<SymbolDescriptor>)
    ensures
        views_of(out@) == range_symbols(items@, from as int),
    decreases items@, 1int, 0int,
{
    let mut out: Vec<SymbolDescriptor> = Vec::new();
    let mut i = from;
    proof {
        assert(views_of(out@) =~= Seq::<SymbolView>::empty());
    }
    while i < items.len()
        invariant
            from <= i,
            range_symbols(items@, from as int) == views_of(out@) + range_symbols(
                items@,
                i as int,
            ),
        decreases items@.len() - i,
    {
        let mut sub = extract_symbols(&items[i]);
        let ghost prev = out@;
        let ghost subv = sub@;
        out.append(&mut sub);
        proof {
            assert(views_of(prev + subv) =~= views_of(prev) + views_of(subv));
            assert(range_symbols(items@, i as int) == symbols_of(items@[i as int])
                + range_symbols(items@, i + 1));
        }
        i += 1;
    }
    proof {
        assert(range_symbols(items@, i as int) =~= Seq::<SymbolView>::empty());
        assert(views_of(out@) + range_symbols(items@, i as int) =~= views_of(out@));
    }
    out
}

/// Collect the symbols of one tagged instruction.
fn collect_instruction(arr: &Vec<Node>) -> (out: Vec<SymbolDescriptor>)
    requires
        arr@.len() > 0,
        arr@[0] is Text,
    ensures
        views_of(out@) == instruction_symbols(arr@),
    decreases arr@, 2int, 0int,
{
    let tag: &Vec<u8> = match &arr[0] {
        Node::Text(t) => t,
        _ => {
            proof {
                assert(false);
            }
            return Vec::new();
        },
    };
    let set_pat: Vec<u8> = vec![115u8, 101u8, 116u8]; // "set"
    let function_pat: Vec<u8> = vec![102u8, 117u8, 110u8, 99u8, 116u8, 105u8, 111u8, 110u8]; // "function"
    let class_pat: Vec<u8> = vec![99u8, 108u8, 97u8, 115u8, 115u8]; // "class"
    let namespace_pat: Vec<u8> = vec![110u8, 97u8, 109u8, 101u8, 115u8, 112u8, 97u8, 99u8, 101u8]; // "namespace"
    let if_pat: Vec<u8> = vec![105u8, 102u8]; // "if"
    let while_pat: Vec<u8> = vec![119u8, 104u8, 105u8, 108u8, 101u8]; // "while"
    let for_range_pat: Vec<u8> = vec![102u8, 111u8, 114u8, 95u8, 114u8, 97u8, 110u8, 103u8, 101u8]; // "for_range"
    proof {
        assert(set_pat@ =~= tag_set());
        assert(function_pat@ =~= tag_function());
        assert(class_pat@ =~= tag_class());
        assert(namespace_pat@ =~= tag_namespace());
        assert(if_pat@ =~= tag_if());
        assert(while_pat@ =~= tag_while());
        assert(for_range_pat@ =~= tag_for_range());
        assert(tag@ == tag_of(arr@));
    }
    let mut out: Vec<SymbolDescriptor> = Vec::new();
    if bytes_eq(tag.as_slice(), set_pat.as_slice()) {
        if arr.len() > 2 {
            match &arr[2] {
                Node::Text(name) => {
                    out.push(make_variable(name));
                },
                _ => {},
            }
        }
        proof {
            assert(views_of(out@) =~= instruction_symbols(arr@));
        }
    } else if bytes_eq(tag.as_slice(), function_pat.as_slice()) {
        if arr.len() > 2 {
            match &arr[2] {
                Node::Text(name) => {
                    out.push(make_function(name));
                },
                _ => {},
            }
        }
        if arr.len() > 5 {
            let mut sub = extract_symbols(&arr[5]);
            let ghost prev = out@;
            let ghost subv = sub@;
            out.append(&mut sub);
            proof {
                assert(views_of(prev + subv) =~= views_of(prev) + views_of(subv));
            }
        }
        proof {
            assert(views_of(out@) =~= instruction_symbols(arr@));
        }
    } else if bytes_eq(tag.as_slice(), class_pat.as_slice()) {
        if arr.len() > 2 {
            match &arr[2] {
                Node::Text(name) => {
                    out.push(make_class(name));
                },
                _ => {},
            }
        }
        proof {
            assert(views_of(out@) =~= instruction_symbols(arr@));
        }
    } else if bytes_eq(tag.as_slice(), namespace_pat.as_slice()) {
        if arr.len() > 2 {
            match &arr[2] {
                Node::Text(name) => {
                    out.push(make_namespace(name));
                },
                _ => {},
            }
        }
        if arr.len() > 3 {
            let mut sub = extract_symbols(&arr[3]);
            let ghost prev = out@;
            let ghost subv = sub@;
            out.append(&mut sub);
            proof {
                assert(views_of(prev + subv) =~= views_of(prev) + views_of(subv));
            }
        }
        proof {
            assert(views_of(out@) =~= instruction_symbols(arr@));
        }
    } else if bytes_eq(tag.as_slice(), if_pat.as_slice()) || bytes_eq(
        tag.as_slice(),
        while_pat.as_slice(),
    ) || bytes_eq(tag.as_slice(), for_range_pat.as_slice()) {
        out = collect_range(arr, 2);
    } else {
        proof {
            assert(views_of(out@) =~= instruction_symbols(arr@));
        }
    }
    out
}

/// Every declaration reachable from `n`, in pre-order, duplicates kept.
pub fn extract_symbols(n: &Node) -> (out: Vec<SymbolDescriptor>)
    ensures
        views_of(out@) == symbols_of(*n),
    decreases *n, 0int, 0int,
{
    match n {
        Node::List(arr) => {
            let tagged = arr.len() > 0 && matches!(&arr[0], Node::Text(_));
            if tagged {
                collect_instruction(arr)
            } else {
                collect_range(arr, 0)
            }
        },
        _ => {
            let out: Vec<SymbolDescriptor> = Vec::new();
            proof {
                assert(views_of(out@) =~= Seq::<SymbolView>::empty());
            }
            out
        },
    }
}

} // verus!
