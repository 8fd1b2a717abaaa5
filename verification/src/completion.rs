//! Name completion: on request, the fixed language-keyword set is merged
//! with a snapshot of the current symbol index, keywords first.  The request
//! carries no filtering context; the full list is always returned and the
//! client filters by prefix.  Keywords and symbols of the same name are both
//! kept: nothing is deduplicated.

use vstd::prelude::*;

use crate::index::SymbolIndex;
use crate::walker::clone_bytes;
use crate::walker::views_of;
use crate::walker::SymbolDescriptor;
use crate::walker::SymbolKind;
use crate::walker::SymbolView;

verus! {

/// What kind of completion a list entry offers.
#[derive(Clone, Copy, Debug, PartialEq, Eq, Structural)]
pub enum CompletionKind {
    /// A fixed language keyword.
    Keyword,
    /// A symbol the last analysis pass extracted.
    Symbol(SymbolKind),
}

/// One entry of a completion response.
#[derive(Clone, Debug, PartialEq, Eq)]
pub struct CompletionEntry {
    pub label: Vec<u8>,
    pub kind: CompletionKind,
    pub detail: Option<Vec<u8>>,
    pub insert: Option<Vec<u8>>,
}

/// Mathematical image of a `CompletionEntry`.
#[verifier::ext_equal]
pub struct CompletionEntryView {
    pub label: Seq<u8>,
    pub kind: CompletionKind,
    pub detail: Option<Seq<u8>>,
    pub insert: Option<Seq<u8>>,
}

impl View for CompletionEntry {
    type V = CompletionEntryView;

    open spec fn view(&self) -> CompletionEntryView {
        CompletionEntryView {
            label: self.label@,
            kind: self.kind,
            detail: match self.detail {
                Some(d) => Some(d@),
                None => None,
            },
            insert: match self.insert {
                Some(t) => Some(t@),
                None => None,
            },
        }
    }
}

/// The fixed keyword vocabulary, in the order it is surfaced.
pub open spec fn keyword_labels() -> Seq<Seq<u8>> {
    seq![
        seq![118u8, 97u8, 114u8],  // var
        seq![102u8, 117u8, 110u8, 99u8],  // func
        seq![105u8, 102u8],  // if
        seq![101u8, 108u8, 115u8, 101u8],  // else
        seq![119u8, 104u8, 105u8, 108u8, 101u8],  // while
        seq![102u8, 111u8, 114u8],  // for
        seq![114u8, 101u8, 116u8, 117u8, 114u8, 110u8],  // return
        seq![99u8, 108u8, 97u8, 115u8, 115u8],  // class
        seq![110u8, 101u8, 119u8],  // new
        seq![105u8, 109u8, 112u8, 111u8, 114u8, 116u8],  // import
        seq![116u8, 114u8, 121u8],  // try
        seq![99u8, 97u8, 116u8, 99u8, 104u8],  // catch
        seq![110u8, 97u8, 109u8, 101u8, 115u8, 112u8, 97u8, 99u8, 101u8],  // namespace
        seq![116u8, 114u8, 117u8, 101u8],  // true
        seq![102u8, 97u8, 108u8, 115u8, 101u8],  // false
        seq![110u8, 117u8, 108u8, 108u8],  // null
    ]
}

pub open spec fn keyword_entry(label: Seq<u8>) -> CompletionEntryView {
    CompletionEntryView { label, kind: CompletionKind::Keyword, detail: None, insert: None }
}

/// The completion entries of the fixed keywords.
pub open spec fn keyword_entries() -> Seq<CompletionEntryView> {
    keyword_labels().map_values(|label: Seq<u8>| keyword_entry(label))
}

/// The completion entry a symbol descriptor turns into.
pub open spec fn symbol_entry(s: SymbolView) -> CompletionEntryView {
    CompletionEntryView {
        label: s.name,
        kind: CompletionKind::Symbol(s.kind),
        detail: s.detail,
        insert: s.insert,
    }
}

fn keyword_item(label: Vec<u8>) -> (e: CompletionEntry)
    ensures
        e@ == keyword_entry(label@),
{
    let e = CompletionEntry { label, kind: CompletionKind::Keyword, detail: None, insert: None };
    proof {
        assert(e@ =~= keyword_entry(e.label@));
    }
    e
}

fn symbol_item(d: &SymbolDescriptor) -> (e: CompletionEntry)
    ensures
        e@ == symbol_entry(d@),
{
    let e = CompletionEntry {
        label: clone_bytes(&d.name),
        kind: CompletionKind::Symbol(d.kind),
        detail: match &d.detail {
            Some(v) => Some(clone_bytes(v)),
            None => None,
        },
        insert: match &d.insert {
            Some(v) => Some(clone_bytes(v)),
            None => None,
        },
    };
    proof {
        assert(e@ =~= symbol_entry(d@));
    }
    e
}

/// The full completion list: every fixed keyword, in order, then a snapshot
/// of the symbol index, in extraction order, whatever the index holds.
#[verifier::loop_isolation(false)]
pub fn completion_items(index: &SymbolIndex) -> (items: Vec<CompletionEntry>)
    ensures
        items@.len() == keyword_entries().len() + index@.len(),
        forall|i: int| 0 <= i < keyword_entries().len() ==> (#[trigger] items@[i])@
            == keyword_entries()[i],
        forall|i: int| 0 <= i < index@.len() ==> (#[trigger] items@[keyword_entries().len() + i])@
            == symbol_entry(index@[i]),
{
    let mut items: Vec<CompletionEntry> = Vec::new();
    items.push(keyword_item(vec![118u8, 97u8, 114u8]));
    items.push(keyword_item(vec![102u8, 117u8, 110u8, 99u8]));
    items.push(keyword_item(vec![105u8, 102u8]));
    items.push(keyword_item(vec![101u8, 108u8, 115u8, 101u8]));
    items.push(keyword_item(vec![119u8, 104u8, 105u8, 108u8, 101u8]));
    items.push(keyword_item(vec![102u8, 111u8, 114u8]));
    items.push(keyword_item(vec![114u8, 101u8, 116u8, 117u8, 114u8, 110u8]));
    items.push(keyword_item(vec![99u8, 108u8, 97u8, 115u8, 115u8]));
    items.push(keyword_item(vec![110u8, 101u8, 119u8]));
    items.push(keyword_item(vec![105u8, 109u8, 112u8, 111u8, 114u8, 116u8]));
    items.push(keyword_item(vec![116u8, 114u8, 121u8]));
    items.push(keyword_item(vec![99u8, 97u8, 116u8, 99u8, 104u8]));
    items.push(keyword_item(vec![110u8, 97u8, 109u8, 101u8, 115u8, 112u8, 97u8, 99u8, 101u8]));
    items.push(keyword_item(vec![116u8, 114u8, 117u8, 101u8]));
    items.push(keyword_item(vec![102u8, 97u8, 108u8, 115u8, 101u8]));
    items.push(keyword_item(vec![110u8, 117u8, 108u8, 108u8]));
    proof {
        assert(items@[0]@ =~= keyword_entries()[0]);
        assert(items@[1]@ =~= keyword_entries()[1]);
        assert(items@[2]@ =~= keyword_entries()[2]);
        assert(items@[3]@ =~= keyword_entries()[3]);
        assert(items@[4]@ =~= keyword_entries()[4]);
        assert(items@[5]@ =~= keyword_entries()[5]);
        assert(items@[6]@ =~= keyword_entries()[6]);
        assert(items@[7]@ =~= keyword_entries()[7]);
        assert(items@[8]@ =~= keyword_entries()[8]);
        assert(items@[9]@ =~= keyword_entries()[9]);
        assert(items@[10]@ =~= keyword_entries()[10]);
        assert(items@[11]@ =~= keyword_entries()[11]);
        assert(items@[12]@ =~= keyword_entries()[12]);
        assert(items@[13]@ =~= keyword_entries()[13]);
        assert(items@[14]@ =~= keyword_entries()[14]);
        assert(items@[15]@ =~= keyword_entries()[15]);
    }
    let symbols = index.snapshot();
    let n = symbols.len();
    let mut i: usize = 0;
    while i < n
        invariant
            0 <= i <= n,
            items@.len() == keyword_entries().len() + i,
            forall|k: int| 0 <= k < keyword_entries().len() ==> (#[trigger] items@[k])@
                == keyword_entries()[k],
            forall|k: int| 0 <= k < i ==> (#[trigger] items@[keyword_entries().len() + k])@
                == symbol_entry(index@[k]),
        decreases n - i,
    {
        items.push(symbol_item(&symbols[i]));
        proof {
            assert(views_of(symbols@)[i as int] == symbols@[i as int]@);
        }
        i += 1;
    }
    items
}

} // verus!
