use vstd::prelude::*;
use crate::text::push_text;

verus! {

pub struct NamespaceMetadata {
    pub name: String,
}

pub struct NamespaceItem {
    pub metadata: NamespaceMetadata,
}

/// Namespaces, as listed by `GET /api/v1/namespaces`.
pub struct NamespaceListResponse {
    pub items: Vec<NamespaceItem>,
}

/// The names of `items`, separated by `, `.
pub open spec fn joined_names(items: Seq<NamespaceItem>) -> Seq<char>
    decreases items.len(),
{
    if items.len() == 0 {
        Seq::empty()
    } else if items.len() == 1 {
        items[0].metadata.name@
    } else {
        joined_names(items.drop_last()) + ", "@ + items.last().metadata.name@
    }
}

impl NamespaceListResponse {
    /// The namespace names in order, separated by `, `.
    pub fn as_string(&self) -> (r: String)
        ensures
            r@ == joined_names(self.items@),
    {
        let mut out = String::new();
        let mut i: usize = 0;
        while i < self.items.len()
            invariant
                i <= self.items@.len(),
                out@ == joined_names(self.items@.take(i as int)),
            decreases self.items@.len() - i,
        {
            if i > 0 {
                push_text(&mut out, ", ");
            }
            push_text(&mut out, self.items[i].metadata.name.as_str());
            assert(self.items@.take(i + 1).drop_last() == self.items@.take(i as int));
            i = i + 1;
        }
        assert(self.items@.take(i as int) == self.items@);
        out
    }
}

} // verus!
