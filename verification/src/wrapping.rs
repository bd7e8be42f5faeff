//! GraphQL wrapping types (lists and non-null markers) around a named type.

use vstd::prelude::*;

verus! {

/// One list layer around a type: `[T]!` or `[T]`.
#[derive(Debug, Clone, Copy, PartialEq, Eq, Structural)]
pub enum ListWrapping {
    RequiredList,
    NullableList,
}

/// The wrapping types of a field or argument type, without its named base type.
/// `list_wrappings` goes from the innermost list to the outermost one:
/// `[[Int!]]!` has a required inner type, then a nullable list, then a required list.
#[derive(Debug, Clone, PartialEq, Eq)]
pub struct WrappingTypes {
    pub inner_is_required: bool,
    pub list_wrappings: Vec<ListWrapping>,
}

/// `"!"` after a type when the layer is required.
pub open spec fn bang(required: bool) -> Seq<char> {
    if required {
        seq!['!']
    } else {
        Seq::empty()
    }
}

/// The GraphQL notation of `base` wrapped in `lists` (innermost first).
pub open spec fn render_wrapped(base: Seq<char>, inner_is_required: bool, lists: Seq<ListWrapping>) -> Seq<
    char,
>
    decreases lists.len(),
{
    if lists.len() == 0 {
        base + bang(inner_is_required)
    } else {
        seq!['['] + render_wrapped(base, inner_is_required, lists.drop_last()) + seq![']'] + bang(
            lists.last() == ListWrapping::RequiredList,
        )
    }
}

/// Whether the outermost layer is non-null.
pub open spec fn outermost_required(inner_is_required: bool, lists: Seq<ListWrapping>) -> bool {
    if lists.len() == 0 {
        inner_is_required
    } else {
        lists.last() == ListWrapping::RequiredList
    }
}

impl WrappingTypes {
    pub open spec fn spec_is_nonnull(&self) -> bool {
        outermost_required(self.inner_is_required, self.list_wrappings@)
    }

    pub open spec fn spec_render(&self, base: Seq<char>) -> Seq<char> {
        render_wrapped(base, self.inner_is_required, self.list_wrappings@)
    }

    /// Whether the type as a whole is non-null.
    pub fn is_nonnull(&self) -> (r: bool)
        ensures
            r == self.spec_is_nonnull(),
    {
        let n = self.list_wrappings.len();
        if n == 0 {
            self.inner_is_required
        } else {
            match self.list_wrappings[n - 1] {
                ListWrapping::RequiredList => true,
                ListWrapping::NullableList => false,
            }
        }
    }

    /// Writes the full type in GraphQL notation around the named type `base`.
    pub fn render(&self, base: &str) -> (r: String)
        ensures
            r@ == self.spec_render(base@),
    {
        proof {
            reveal_strlit("!");
            reveal_strlit("[");
            reveal_strlit("]");
        }
        let mut out = String::from_str(base);
        if self.inner_is_required {
            out.append("!");
        }
        assert(out@ =~= render_wrapped(base@, self.inner_is_required, self.list_wrappings@.take(0)));
        let n = self.list_wrappings.len();
        let mut i: usize = 0;
        while i < n
            invariant
                n == self.list_wrappings.len(),
                i <= n,
                "!"@ == seq!['!'],
                "["@ == seq!['['],
                "]"@ == seq![']'],
                out@ == render_wrapped(base@, self.inner_is_required, self.list_wrappings@.take(i as int)),
            decreases n - i,
        {
            let mut next = String::from_str("[");
            next.append(out.as_str());
            next.append("]");
            let required = match self.list_wrappings[i] {
                ListWrapping::RequiredList => true,
                ListWrapping::NullableList => false,
            };
            if required {
                next.append("!");
            }
            let ghost lists = self.list_wrappings@.take(i + 1);
            assert(lists.drop_last() =~= self.list_wrappings@.take(i as int));
            assert(next@ =~= render_wrapped(base@, self.inner_is_required, lists));
            out = next;
            i = i + 1;
        }
        assert(self.list_wrappings@.take(n as int) =~= self.list_wrappings@);
        out
    }
}

/// A type is non-null exactly when its notation ends in `!` (for a base name that does not).
pub proof fn lemma_nonnull_iff_rendered_with_bang(w: WrappingTypes, base: Seq<char>)
    requires
        base.len() == 0 || base.last() != '!',
    ensures
        w.spec_is_nonnull() <==> (w.spec_render(base).len() > 0 && w.spec_render(base).last()
            == '!'),
{
    let lists = w.list_wrappings@;
    if lists.len() == 0 {
        if !w.inner_is_required {
            assert(w.spec_render(base) =~= base);
        }
    }
}

} // verus!
