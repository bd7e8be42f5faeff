//! A GraphQL schema to run operation checks against: fields, field arguments and
//! interface implementations, each kept sorted so that lookups are binary searches.

use std::collections::HashSet;
use vstd::prelude::*;
use crate::lexical::{compare_text, lemma_text_order, text_eq, text_lt, TextOrder};
use crate::order::{
    compare_pair, compare_triple, front, lemma_pair_le_first, lemma_pair_order, lemma_triple_le_front,
    lemma_triple_order, pair_lt, triple_lt, Key2, Key3,
};
use crate::search::{lemma_partition_point_splits, partition_point, partition_point_of};
use crate::wrapping::WrappingTypes;

verus! {

/// The position of a field in the schema's sorted field list.
#[derive(Copy, Clone, Debug, PartialEq, Eq, PartialOrd, Ord, Hash, Structural)]
pub struct FieldId(pub usize);

/// The position of an argument in the schema's sorted argument list.
#[derive(Copy, Clone, Debug, PartialEq, Eq, PartialOrd, Ord, Hash, Structural)]
pub struct ArgumentId(pub usize);

/// A field of an object or interface type.
#[derive(Debug, PartialEq, Eq)]
pub struct SchemaField {
    pub parent_type: String,
    pub field_name: String,
    /// The type of the field without any wrapping type (! and []).
    pub base_type: String,
    pub wrappers: WrappingTypes,
}

/// An argument of a field.
#[derive(Debug, PartialEq, Eq)]
pub struct FieldArgument {
    pub parent_type: String,
    pub field_name: String,
    pub argument_name: String,
    /// The type of the argument without any wrapping type (! and []).
    pub base_type: String,
    pub wrappers: WrappingTypes,
    pub has_default: bool,
}

impl SchemaField {
    /// The key that orders fields: (type name, field name).
    pub open spec fn key(&self) -> Key2 {
        (self.parent_type@, self.field_name@)
    }
}

impl FieldArgument {
    /// The key that orders arguments: (type name, field name, argument name).
    pub open spec fn key(&self) -> Key3 {
        (self.parent_type@, self.field_name@, self.argument_name@)
    }

    /// The key of the field the argument belongs to.
    pub open spec fn field_key(&self) -> Key2 {
        (self.parent_type@, self.field_name@)
    }
}

/// The key of an interface implementation (implementer, interface).
pub open spec fn implementation_key(i: (String, String)) -> Key2 {
    (i.0@, i.1@)
}

/// Fields in non-decreasing key order.
pub open spec fn fields_sorted(fs: Seq<SchemaField>) -> bool {
    forall|i: int, j: int| 0 <= i < j < fs.len() ==> !pair_lt(#[trigger] fs[j].key(), #[trigger] fs[i].key())
}

/// Arguments in non-decreasing key order.
pub open spec fn arguments_sorted(args: Seq<FieldArgument>) -> bool {
    forall|i: int, j: int|
        0 <= i < j < args.len() ==> !triple_lt(#[trigger] args[j].key(), #[trigger] args[i].key())
}

/// Interface implementations in non-decreasing (implementer, interface) order.
pub open spec fn implementations_sorted(imps: Seq<(String, String)>) -> bool {
    forall|i: int, j: int|
        0 <= i < j < imps.len() ==> !pair_lt(
            implementation_key(#[trigger] imps[j]),
            implementation_key(#[trigger] imps[i]),
        )
}

/// A GraphQL schema to run operation checks against.
#[derive(Debug)]
pub struct Schema {
    fields: Vec<SchemaField>,
    field_arguments: Vec<FieldArgument>,
    /// (implementer, interface)
    interface_implementations: Vec<(String, String)>,
    input_objects: HashSet<String>,
    query_type_name: String,
    mutation_type_name: String,
    subscription_type_name: String,
}

/// Checks that fields are in key order.
fn check_fields_sorted(fs: &Vec<SchemaField>) -> (r: bool)
    ensures
        r == fields_sorted(fs@),
{
    let n = fs.len();
    if n == 0 {
        return true;
    }
    let mut i: usize = 1;
    while i < n
        invariant
            n == fs.len(),
            1 <= i <= n,
            fields_sorted(fs@.take(i as int)),
        decreases n - i,
    {
        let prev = &fs[i - 1];
        let cur = &fs[i];
        let o = compare_pair(
            cur.parent_type.as_str(),
            cur.field_name.as_str(),
            prev.parent_type.as_str(),
            prev.field_name.as_str(),
        );
        if let TextOrder::Less = o {
            assert(!fields_sorted(fs@)) by {
                assert(pair_lt(fs@[i as int].key(), fs@[i - 1].key()));
            }
            return false;
        }
        proof {
            lemma_pair_order(fs@[i as int].key(), fs@[i - 1].key(), fs@[i - 1].key());
            assert(!pair_lt(fs@[i as int].key(), fs@[i - 1].key()));
        }
        proof {
            let s = fs@.take(i + 1);
            assert forall|a: int, b: int| 0 <= a < b < s.len() implies !pair_lt(
                #[trigger] s[b].key(),
                #[trigger] s[a].key(),
            ) by {
                assert(s[a] == fs@[a]);
                assert(s[b] == fs@[b]);
                if b == i {
                    if a < i - 1 {
                        assert(fs@.take(i as int)[a] == s[a]);
                        assert(fs@.take(i as int)[i - 1] == s[i - 1]);
                        lemma_pair_order(s[a].key(), s[i - 1].key(), s[b].key());
                    } else {
                        lemma_pair_order(s[b].key(), s[a].key(), s[a].key());
                    }
                } else {
                    assert(fs@.take(i as int)[a] == s[a]);
                    assert(fs@.take(i as int)[b] == s[b]);
                }
            }
        }
        i = i + 1;
    }
    assert(fs@.take(n as int) =~= fs@);
    true
}

/// Checks that arguments are in key order.
fn check_arguments_sorted(args: &Vec<FieldArgument>) -> (r: bool)
    ensures
        r == arguments_sorted(args@),
{
    let n = args.len();
    if n == 0 {
        return true;
    }
    let mut i: usize = 1;
    while i < n
        invariant
            n == args.len(),
            1 <= i <= n,
            arguments_sorted(args@.take(i as int)),
        decreases n - i,
    {
        let prev = &args[i - 1];
        let cur = &args[i];
        let o = compare_triple(
            cur.parent_type.as_str(),
            cur.field_name.as_str(),
            cur.argument_name.as_str(),
            prev.parent_type.as_str(),
            prev.field_name.as_str(),
            prev.argument_name.as_str(),
        );
        if let TextOrder::Less = o {
            assert(!arguments_sorted(args@)) by {
                assert(triple_lt(args@[i as int].key(), args@[i - 1].key()));
            }
            return false;
        }
        proof {
            lemma_triple_order(args@[i as int].key(), args@[i - 1].key(), args@[i - 1].key());
            let s = args@.take(i + 1);
            assert forall|a: int, b: int| 0 <= a < b < s.len() implies !triple_lt(
                #[trigger] s[b].key(),
                #[trigger] s[a].key(),
            ) by {
                assert(s[a] == args@[a]);
                assert(s[b] == args@[b]);
                if b == i {
                    if a < i - 1 {
                        assert(args@.take(i as int)[a] == s[a]);
                        assert(args@.take(i as int)[i - 1] == s[i - 1]);
                        lemma_triple_order(s[a].key(), s[i - 1].key(), s[b].key());
                    }
                } else {
                    assert(args@.take(i as int)[a] == s[a]);
                    assert(args@.take(i as int)[b] == s[b]);
                }
            }
        }
        i = i + 1;
    }
    assert(args@.take(n as int) =~= args@);
    true
}

/// Checks that interface implementations are in (implementer, interface) order.
fn check_implementations_sorted(imps: &Vec<(String, String)>) -> (r: bool)
    ensures
        r == implementations_sorted(imps@),
{
    let n = imps.len();
    if n == 0 {
        return true;
    }
    let mut i: usize = 1;
    while i < n
        invariant
            n == imps.len(),
            1 <= i <= n,
            implementations_sorted(imps@.take(i as int)),
        decreases n - i,
    {
        let prev = &imps[i - 1];
        let cur = &imps[i];
        let o = compare_pair(cur.0.as_str(), cur.1.as_str(), prev.0.as_str(), prev.1.as_str());
        if let TextOrder::Less = o {
            assert(!implementations_sorted(imps@)) by {
                assert(pair_lt(implementation_key(imps@[i as int]), implementation_key(imps@[i - 1])));
            }
            return false;
        }
        proof {
            lemma_pair_order(
                implementation_key(imps@[i as int]),
                implementation_key(imps@[i - 1]),
                implementation_key(imps@[i - 1]),
            );
            let s = imps@.take(i + 1);
            assert forall|a: int, b: int| 0 <= a < b < s.len() implies !pair_lt(
                implementation_key(#[trigger] s[b]),
                implementation_key(#[trigger] s[a]),
            ) by {
                assert(s[a] == imps@[a]);
                assert(s[b] == imps@[b]);
                if b == i {
                    if a < i - 1 {
                        assert(imps@.take(i as int)[a] == s[a]);
                        assert(imps@.take(i as int)[i - 1] == s[i - 1]);
                        lemma_pair_order(
                            implementation_key(s[a]),
                            implementation_key(s[i - 1]),
                            implementation_key(s[b]),
                        );
                    }
                } else {
                    assert(imps@.take(i as int)[a] == s[a]);
                    assert(imps@.take(i as int)[b] == s[b]);
                }
            }
        }
        i = i + 1;
    }
    assert(imps@.take(n as int) =~= imps@);
    true
}

impl Schema {
    /// The fields, the arguments and the interface implementations are each sorted.
    #[verifier::type_invariant]
    spec fn sorted(&self) -> bool {
        &&& fields_sorted(self.fields@)
        &&& arguments_sorted(self.field_arguments@)
        &&& implementations_sorted(self.interface_implementations@)
    }

    /// The fields, sorted by (type name, field name).
    pub closed spec fn field_list(&self) -> Seq<SchemaField> {
        self.fields@
    }

    /// The field arguments, sorted by (type name, field name, argument name).
    pub closed spec fn argument_list(&self) -> Seq<FieldArgument> {
        self.field_arguments@
    }

    /// The (implementer, interface) pairs, sorted.
    pub closed spec fn implementation_list(&self) -> Seq<(String, String)> {
        self.interface_implementations@
    }

    /// The names of the input object types.
    pub closed spec fn input_object_set(&self) -> HashSet<String> {
        self.input_objects
    }

    pub closed spec fn query_type(&self) -> Seq<char> {
        self.query_type_name@
    }

    pub closed spec fn mutation_type(&self) -> Seq<char> {
        self.mutation_type_name@
    }

    pub closed spec fn subscription_type(&self) -> Seq<char> {
        self.subscription_type_name@
    }

    /// Builds a schema from its parts; `None` unless fields, arguments and
    /// interface implementations each come sorted.
    pub fn new(
        fields: Vec<SchemaField>,
        field_arguments: Vec<FieldArgument>,
        interface_implementations: Vec<(String, String)>,
        input_objects: HashSet<String>,
        query_type_name: String,
        mutation_type_name: String,
        subscription_type_name: String,
    ) -> (r: Option<Schema>)
        ensures
            r is Some <==> (fields_sorted(fields@) && arguments_sorted(field_arguments@)
                && implementations_sorted(interface_implementations@)),
            r matches Some(s) ==> {
                &&& s.field_list() == fields@
                &&& s.argument_list() == field_arguments@
                &&& s.implementation_list() == interface_implementations@
                &&& s.input_object_set() == input_objects
                &&& s.query_type() == query_type_name@
                &&& s.mutation_type() == mutation_type_name@
                &&& s.subscription_type() == subscription_type_name@
            },
    {
        if !check_fields_sorted(&fields) || !check_arguments_sorted(&field_arguments)
            || !check_implementations_sorted(&interface_implementations) {
            return None;
        }
        Some(
            Schema {
                fields,
                field_arguments,
                interface_implementations,
                input_objects,
                query_type_name,
                mutation_type_name,
                subscription_type_name,
            },
        )
    }

    /// The name of the query root type.
    pub fn query_type_name(&self) -> (r: &str)
        ensures
            r@ == self.query_type(),
    {
        self.query_type_name.as_str()
    }

    /// The name of the mutation root type.
    pub fn mutation_type_name(&self) -> (r: &str)
        ensures
            r@ == self.mutation_type(),
    {
        self.mutation_type_name.as_str()
    }

    /// The name of the subscription root type.
    pub fn subscription_type_name(&self) -> (r: &str)
        ensures
            r@ == self.subscription_type(),
    {
        self.subscription_type_name.as_str()
    }

    /// The names of the input object types.
    pub fn input_objects(&self) -> (r: &HashSet<String>)
        ensures
            *r == self.input_object_set(),
    {
        &self.input_objects
    }

    /// The field at `id` (the `Index<FieldId>` of the schema).
    pub fn field(&self, id: FieldId) -> (r: &SchemaField)
        requires
            id.0 < self.field_list().len(),
        ensures
            *r == self.field_list()[id.0 as int],
    {
        &self.fields[id.0]
    }

    /// The argument at `id` (the `Index<ArgumentId>` of the schema).
    pub fn argument(&self, id: ArgumentId) -> (r: &FieldArgument)
        requires
            id.0 < self.argument_list().len(),
        ensures
            *r == self.argument_list()[id.0 as int],
    {
        &self.field_arguments[id.0]
    }
}

impl Schema {
    /// Looks up the field `field_name` of the type `parent_type`: the first field with that
    /// (type name, field name) key, or `None` when the schema has no such field.
    pub fn find_field(&self, parent_type: &str, field_name: &str) -> (r: Option<FieldId>)
        ensures
            match r {
                Some(id) => {
                    &&& id.0 < self.field_list().len()
                    &&& self.field_list()[id.0 as int].key() == (parent_type@, field_name@)
                    &&& forall|i: int|
                        0 <= i < id.0 ==> #[trigger] self.field_list()[i].key() != (
                            parent_type@,
                            field_name@,
                        )
                },
                None => forall|i: int|
                    0 <= i < self.field_list().len() ==> #[trigger] self.field_list()[i].key() != (
                        parent_type@,
                        field_name@,
                    ),
            },
    {
        proof {
            use_type_invariant(self);
        }
        let fs = &self.fields;
        let ghost target: Key2 = (parent_type@, field_name@);
        let ghost p = Seq::new(fs.len() as nat, |i: int| pair_lt(fs@[i].key(), target));
        let pred = |i: usize| -> (b: bool)
            requires
                i < fs.len(),
            ensures
                b == pair_lt(fs@[i as int].key(), (parent_type@, field_name@)),
            {
                let f = &fs[i];
                let o = compare_pair(f.parent_type.as_str(), f.field_name.as_str(), parent_type, field_name);
                proof {
                    lemma_pair_order(f.key(), (parent_type@, field_name@), (parent_type@, field_name@));
                }
                match o {
                    TextOrder::Less => true,
                    _ => false,
                }
            };
        proof {
            assert forall|i: int, j: int| 0 <= i < j < p.len() && #[trigger] p[j] implies #[trigger] p[i] by {
                lemma_pair_order(fs@[i].key(), fs@[j].key(), target);
            }
        }
        let start = partition_point(fs.len(), pred, Ghost(p));
        proof {
            lemma_partition_point_splits(p);
        }
        if start < fs.len() {
            let f = &fs[start];
            let o = compare_pair(f.parent_type.as_str(), f.field_name.as_str(), parent_type, field_name);
            if let TextOrder::Equal = o {
                proof {
                    assert forall|i: int| 0 <= i < start implies #[trigger] self.field_list()[i].key()
                        != target by {
                        assert(p[i]);
                        lemma_pair_order(fs@[i].key(), target, target);
                    }
                }
                return Some(FieldId(start));
            }
            proof {
                assert(!p[start as int]);
                lemma_pair_order(fs@[start as int].key(), target, target);
                assert forall|i: int| 0 <= i < fs.len() implies #[trigger] self.field_list()[i].key()
                    != target by {
                    if i < start {
                        assert(p[i]);
                        lemma_pair_order(fs@[i].key(), target, target);
                    } else if i > start {
                        lemma_pair_order(target, fs@[start as int].key(), fs@[i].key());
                    }
                }
            }
            None
        } else {
            proof {
                assert forall|i: int| 0 <= i < fs.len() implies #[trigger] self.field_list()[i].key()
                    != target by {
                    assert(p[i]);
                    lemma_pair_order(fs@[i].key(), target, target);
                }
            }
            None
        }
    }
}

/// Arguments in strictly increasing key order: sorted, and no key twice.
pub open spec fn arguments_strictly_sorted(args: Seq<FieldArgument>) -> bool {
    forall|i: int, j: int|
        0 <= i < j < args.len() ==> triple_lt(#[trigger] args[i].key(), #[trigger] args[j].key())
}

impl Schema {
    /// What a lookup of the argument `key` answers: the first argument with that key, or
    /// `None` when no argument has it.
    pub open spec fn finds_argument(&self, key: Key3, r: Option<ArgumentId>) -> bool {
        match r {
            Some(id) => {
                &&& id.0 < self.argument_list().len()
                &&& self.argument_list()[id.0 as int].key() == key
                &&& forall|i: int| 0 <= i < id.0 ==> #[trigger] self.argument_list()[i].key() != key
            },
            None => forall|i: int|
                0 <= i < self.argument_list().len() ==> #[trigger] self.argument_list()[i].key() != key,
        }
    }

    /// Where no key repeats, looking up an argument's own key finds that argument: so every
    /// argument that `iter_field_arguments` yields with id `i` is found again by
    /// `find_argument` under the id `i`.
    pub proof fn lemma_argument_found_again(&self, i: int, r: Option<ArgumentId>)
        requires
            arguments_strictly_sorted(self.argument_list()),
            0 <= i < self.argument_list().len(),
            self.finds_argument(self.argument_list()[i].key(), r),
        ensures
            r == Some(ArgumentId(i as usize)),
    {
        let args = self.argument_list();
        match r {
            Some(id) => {
                if (id.0 as int) < i {
                    lemma_triple_order(args[id.0 as int].key(), args[i].key(), args[i].key());
                } else if (id.0 as int) > i {
                    assert(args[i].key() != args[i].key());
                }
            },
            None => {
                assert(args[i].key() != args[i].key());
            },
        }
    }

    /// Takes a path like (type name, field name, argument name) and looks up that argument:
    /// the first argument with that key, or `None` when there is none.
    pub fn find_argument(&self, path: (&str, &str, &str)) -> (r: Option<ArgumentId>)
        ensures
            self.finds_argument((path.0@, path.1@, path.2@), r),
    {
        proof {
            use_type_invariant(self);
        }
        let args = &self.field_arguments;
        let (t, f, a) = path;
        let ghost target: Key3 = (t@, f@, a@);
        let ghost p = Seq::new(args.len() as nat, |i: int| triple_lt(args@[i].key(), target));
        let pred = |i: usize| -> (b: bool)
            requires
                i < args.len(),
            ensures
                b == triple_lt(args@[i as int].key(), (t@, f@, a@)),
            {
                let x = &args[i];
                let o = compare_triple(
                    x.parent_type.as_str(),
                    x.field_name.as_str(),
                    x.argument_name.as_str(),
                    t,
                    f,
                    a,
                );
                proof {
                    lemma_triple_order(x.key(), (t@, f@, a@), (t@, f@, a@));
                }
                match o {
                    TextOrder::Less => true,
                    _ => false,
                }
            };
        proof {
            assert forall|i: int, j: int| 0 <= i < j < p.len() && #[trigger] p[j] implies #[trigger] p[i] by {
                lemma_triple_order(args@[i].key(), args@[j].key(), target);
            }
        }
        let start = partition_point(args.len(), pred, Ghost(p));
        proof {
            lemma_partition_point_splits(p);
        }
        if start < args.len() {
            let x = &args[start];
            let o = compare_triple(
                x.parent_type.as_str(),
                x.field_name.as_str(),
                x.argument_name.as_str(),
                t,
                f,
                a,
            );
            if let TextOrder::Equal = o {
                proof {
                    assert forall|i: int| 0 <= i < start implies #[trigger] self.argument_list()[i].key()
                        != target by {
                        assert(p[i]);
                        lemma_triple_order(args@[i].key(), target, target);
                    }
                }
                return Some(ArgumentId(start));
            }
            proof {
                assert(!p[start as int]);
                lemma_triple_order(args@[start as int].key(), target, target);
                assert forall|i: int| 0 <= i < args.len() implies #[trigger] self.argument_list()[i].key()
                    != target by {
                    if i < start {
                        assert(p[i]);
                        lemma_triple_order(args@[i].key(), target, target);
                    } else if i > start {
                        lemma_triple_order(target, args@[start as int].key(), args@[i].key());
                    }
                }
            }
            None
        } else {
            proof {
                assert forall|i: int| 0 <= i < args.len() implies #[trigger] self.argument_list()[i].key()
                    != target by {
                    assert(p[i]);
                    lemma_triple_order(args@[i].key(), target, target);
                }
            }
            None
        }
    }

    /// Where the fields of `parent_type` start: the number of fields whose type name
    /// comes before it.
    pub open spec fn fields_start(&self, parent_type: Seq<char>) -> int {
        partition_point_of(
            Seq::new(self.field_list().len(), |i: int| text_lt(self.field_list()[i].parent_type@, parent_type)),
        )
    }

    /// The fields of the type `parent_type`, in schema order.
    pub fn iter_fields(&self, parent_type: &str) -> (r: Vec<&SchemaField>)
        ensures
            ({
                let s = self.fields_start(parent_type@);
                let fs = self.field_list();
                &&& 0 <= s
                &&& s + r.len() <= fs.len()
                &&& forall|k: int| 0 <= k < r.len() ==> *r@[k] == #[trigger] fs[s + k]
                &&& forall|i: int|
                    0 <= i < fs.len() ==> (#[trigger] fs[i].parent_type@ == parent_type@ <==> s <= i
                        < s + r.len())
            }),
    {
        proof {
            use_type_invariant(self);
        }
        let fs = &self.fields;
        let ghost p = Seq::new(fs@.len(), |i: int| text_lt(fs@[i].parent_type@, parent_type@));
        let pred = |i: usize| -> (b: bool)
            requires
                i < fs.len(),
            ensures
                b == text_lt(fs@[i as int].parent_type@, parent_type@),
            {
                let o = compare_text(fs[i].parent_type.as_str(), parent_type);
                proof {
                    lemma_text_order(fs@[i as int].parent_type@, parent_type@, parent_type@);
                }
                match o {
                    TextOrder::Less => true,
                    _ => false,
                }
            };
        proof {
            assert forall|i: int, j: int| 0 <= i < j < p.len() && #[trigger] p[j] implies #[trigger] p[i] by {
                lemma_pair_le_first(fs@[i].key(), fs@[j].key());
                lemma_text_order(fs@[i].parent_type@, fs@[j].parent_type@, parent_type@);
            }
        }
        let start = partition_point(fs.len(), pred, Ghost(p));
        proof {
            lemma_partition_point_splits(p);
        }
        let mut out: Vec<&SchemaField> = Vec::new();
        let mut end = start;
        let mut same = true;
        while same && end < fs.len()
            invariant
                start <= end <= fs.len(),
                out.len() == end - start,
                forall|k: int| 0 <= k < out.len() ==> *out@[k] == #[trigger] fs@[start + k],
                forall|i: int| start <= i < end ==> #[trigger] fs@[i].parent_type@ == parent_type@,
                !same ==> end < fs.len() && fs@[end as int].parent_type@ != parent_type@,
            decreases fs.len() - end + if same { 1int } else { 0int },
        {
            if text_eq(fs[end].parent_type.as_str(), parent_type) {
                out.push(&fs[end]);
                end = end + 1;
            } else {
                same = false;
            }
        }
        proof {
            assert forall|i: int| 0 <= i < fs.len() implies (#[trigger] fs@[i].parent_type@
                == parent_type@ <==> start <= i < end) by {
                if i < start {
                    assert(p[i]);
                    lemma_text_order(fs@[i].parent_type@, parent_type@, parent_type@);
                } else if i >= end {
                    let e = end as int;
                    assert(!p[e]);
                    lemma_text_order(fs@[e].parent_type@, parent_type@, parent_type@);
                    if i > e {
                        lemma_pair_le_first(fs@[e].key(), fs@[i].key());
                        lemma_text_order(parent_type@, fs@[e].parent_type@, fs@[i].parent_type@);
                    }
                }
            }
        }
        out
    }
}

/// The probe that the argument search asks of each argument, for the field with `key`:
/// whether its type name and its field name both come before the field's.
pub open spec fn arguments_probe(args: Seq<FieldArgument>, key: Key2) -> Seq<bool> {
    Seq::new(
        args.len(),
        |i: int| text_lt(args[i].parent_type@, key.0) && text_lt(args[i].field_name@, key.1),
    )
}

/// Every argument of a field ordered before `key` has both a type name and a field name
/// that come before those of `key`.
pub open spec fn componentwise_before(args: Seq<FieldArgument>, key: Key2) -> bool {
    forall|i: int|
        0 <= i < args.len() && pair_lt(#[trigger] args[i].field_key(), key) ==> text_lt(
            args[i].parent_type@,
            key.0,
        ) && text_lt(args[i].field_name@, key.1)
}

impl Schema {
    /// Where the interface implementations of `implementer` start.
    pub open spec fn implementations_start(&self, implementer: Seq<char>) -> int {
        partition_point_of(
            Seq::new(
                self.implementation_list().len(),
                |i: int| text_lt(self.implementation_list()[i].0@, implementer),
            ),
        )
    }

    /// The interfaces that `parent_type` implements, in schema order.
    pub fn iter_interface_implementations<'a>(&'a self, parent_type: &'a str) -> (r: Vec<&'a str>)
        ensures
            ({
                let s = self.implementations_start(parent_type@);
                let imps = self.implementation_list();
                &&& 0 <= s
                &&& s + r.len() <= imps.len()
                &&& forall|k: int| 0 <= k < r.len() ==> r@[k]@ == (#[trigger] imps[s + k]).1@
                &&& forall|i: int|
                    0 <= i < imps.len() ==> ((#[trigger] imps[i]).0@ == parent_type@ <==> s <= i < s
                        + r.len())
            }),
    {
        proof {
            use_type_invariant(self);
        }
        let imps = &self.interface_implementations;
        let ghost p = Seq::new(imps@.len(), |i: int| text_lt(imps@[i].0@, parent_type@));
        let pred = |i: usize| -> (b: bool)
            requires
                i < imps.len(),
            ensures
                b == text_lt(imps@[i as int].0@, parent_type@),
            {
                let o = compare_text(imps[i].0.as_str(), parent_type);
                proof {
                    lemma_text_order(imps@[i as int].0@, parent_type@, parent_type@);
                }
                match o {
                    TextOrder::Less => true,
                    _ => false,
                }
            };
        proof {
            assert forall|i: int, j: int| 0 <= i < j < p.len() && #[trigger] p[j] implies #[trigger] p[i] by {
                lemma_pair_le_first(implementation_key(imps@[i]), implementation_key(imps@[j]));
                lemma_text_order(imps@[i].0@, imps@[j].0@, parent_type@);
            }
        }
        let start = partition_point(imps.len(), pred, Ghost(p));
        proof {
            lemma_partition_point_splits(p);
        }
        let mut out: Vec<&str> = Vec::new();
        let mut end = start;
        let mut same = true;
        while same && end < imps.len()
            invariant
                start <= end <= imps.len(),
                out.len() == end - start,
                forall|k: int| 0 <= k < out.len() ==> out@[k]@ == (#[trigger] imps@[start + k]).1@,
                forall|i: int| start <= i < end ==> (#[trigger] imps@[i]).0@ == parent_type@,
                !same ==> end < imps.len() && imps@[end as int].0@ != parent_type@,
            decreases imps.len() - end + if same { 1int } else { 0int },
        {
            if text_eq(imps[end].0.as_str(), parent_type) {
                out.push(imps[end].1.as_str());
                end = end + 1;
            } else {
                same = false;
            }
        }
        proof {
            assert forall|i: int| 0 <= i < imps.len() implies ((#[trigger] imps@[i]).0@ == parent_type@
                <==> start <= i < end) by {
                if i < start {
                    assert(p[i]);
                    lemma_text_order(imps@[i].0@, parent_type@, parent_type@);
                } else if i >= end {
                    let e = end as int;
                    assert(!p[e]);
                    lemma_text_order(imps@[e].0@, parent_type@, parent_type@);
                    if i > e {
                        lemma_pair_le_first(implementation_key(imps@[e]), implementation_key(imps@[i]));
                        lemma_text_order(parent_type@, imps@[e].0@, imps@[i].0@);
                    }
                }
            }
        }
        out
    }

    /// Where the search for the arguments of `field_id` lands.
    pub open spec fn arguments_start(&self, field_id: FieldId) -> int {
        partition_point_of(arguments_probe(self.argument_list(), self.field_list()[field_id.0 as int].key()))
    }

    /// The arguments of the field `field_id`, with their ids: the run of arguments of that
    /// field from where the search lands. All of the field's arguments are returned whenever
    /// every argument ordered before the field has both a smaller type name and a smaller
    /// field name.
    pub fn iter_field_arguments(&self, field_id: FieldId) -> (r: Vec<(ArgumentId, &FieldArgument)>)
        requires
            field_id.0 < self.field_list().len(),
        ensures
            ({
                let s = self.arguments_start(field_id);
                let args = self.argument_list();
                let key = self.field_list()[field_id.0 as int].key();
                &&& 0 <= s
                &&& s + r.len() <= args.len()
                &&& forall|k: int|
                    0 <= k < r.len() ==> r@[k].0.0 == s + k && *r@[k].1
                        == #[trigger] args[s + k]
                &&& forall|k: int| 0 <= k < r.len() ==> (#[trigger] args[s + k]).field_key() == key
                &&& s + r.len() == args.len() || args[s + r.len()].field_key() != key
                &&& componentwise_before(args, key) ==> forall|i: int|
                    0 <= i < args.len() ==> ((#[trigger] args[i]).field_key() == key <==> s <= i < s
                        + r.len())
            }),
    {
        proof {
            use_type_invariant(self);
        }
        let field = &self.fields[field_id.0];
        let args = &self.field_arguments;
        let ghost key = field.key();
        let ghost p = arguments_probe(args@, key);
        let pred = |i: usize| -> (b: bool)
            requires
                i < args.len(),
            ensures
                b == (text_lt(args@[i as int].parent_type@, field.parent_type@) && text_lt(
                    args@[i as int].field_name@,
                    field.field_name@,
                )),
            {
                let x = &args[i];
                let o1 = compare_text(x.parent_type.as_str(), field.parent_type.as_str());
                let o2 = compare_text(x.field_name.as_str(), field.field_name.as_str());
                proof {
                    lemma_text_order(x.parent_type@, field.parent_type@, field.parent_type@);
                    lemma_text_order(x.field_name@, field.field_name@, field.field_name@);
                }
                match (o1, o2) {
                    (TextOrder::Less, TextOrder::Less) => true,
                    _ => false,
                }
            };
        let start = partition_point(args.len(), pred, Ghost(p));
        let mut out: Vec<(ArgumentId, &FieldArgument)> = Vec::new();
        let mut end = start;
        let mut same = true;
        while same && end < args.len()
            invariant
                start <= end <= args.len(),
                out.len() == end - start,
                forall|k: int|
                    #![trigger out@[k]]
                    0 <= k < out.len() ==> out@[k].0.0 == start + k && *out@[k].1 == args@[start + k],
                forall|i: int| start <= i < end ==> (#[trigger] args@[i]).field_key() == key,
                !same ==> end < args.len() && args@[end as int].field_key() != key,
                key == field.key(),
            decreases args.len() - end + if same { 1int } else { 0int },
        {
            let x = &args[end];
            let o = compare_pair(
                x.parent_type.as_str(),
                x.field_name.as_str(),
                field.parent_type.as_str(),
                field.field_name.as_str(),
            );
            if let TextOrder::Equal = o {
                let ghost before = out@;
                out.push((ArgumentId(end), x));
                proof {
                    assert forall|k: int| #![trigger out@[k]] 0 <= k < out.len() implies out@[k].0.0 == start + k && *out@[k].1 == args@[start + k] by {
                        if k < before.len() {
                            assert(out@[k] == before[k]);
                        }
                    }
                }
                end = end + 1;
            } else {
                proof {
                    lemma_pair_order(x.field_key(), key, key);
                }
                same = false;
            }
        }
        proof {
            if componentwise_before(args@, key) {
                assert forall|i: int| 0 <= i < p.len() implies (#[trigger] p[i] <==> pair_lt(
                    args@[i].field_key(),
                    key,
                )) by {
                    if pair_lt(args@[i].field_key(), key) {
                        assert(componentwise_before(args@, key));
                    }
                }
                assert forall|i: int, j: int| 0 <= i < j < p.len() && #[trigger] p[j] implies #[trigger] p[i] by {
                    assert(pair_lt(args@[j].field_key(), key));
                    lemma_triple_le_front(args@[i].key(), args@[j].key());
                    assert(front(args@[i].key()) == args@[i].field_key());
                    assert(front(args@[j].key()) == args@[j].field_key());
                    lemma_pair_order(args@[i].field_key(), args@[j].field_key(), key);
                    assert(pair_lt(args@[i].field_key(), key));
                }
                lemma_partition_point_splits(p);
                assert forall|i: int| 0 <= i < args.len() implies ((#[trigger] args@[i]).field_key()
                    == key <==> start <= i < end) by {
                    if i < start {
                        assert(p[i]);
                        lemma_pair_order(args@[i].field_key(), key, key);
                    } else if i >= end {
                        let e = end as int;
                        assert(!p[e]);
                        lemma_pair_order(args@[e].field_key(), key, key);
                        if i > e {
                            lemma_triple_le_front(args@[e].key(), args@[i].key());
                            assert(front(args@[e].key()) == args@[e].field_key());
                            assert(front(args@[i].key()) == args@[i].field_key());
                            lemma_pair_order(key, args@[e].field_key(), args@[i].field_key());
                        }
                    }
                }
            }
        }
        out
    }
}

impl SchemaField {
    /// The field's type in GraphQL notation, such as `[String!]!`.
    pub fn render_type(&self) -> (r: String)
        ensures
            r@ == self.wrappers.spec_render(self.base_type@),
    {
        self.wrappers.render(self.base_type.as_str())
    }

    /// Whether the field's type is non-null.
    pub fn is_required(&self) -> (r: bool)
        ensures
            r == self.wrappers.spec_is_nonnull(),
    {
        self.wrappers.is_nonnull()
    }

    /// Orders fields by (type name, field name), the order the schema keeps them in.
    pub fn compare(&self, other: &SchemaField) -> (r: TextOrder)
        ensures
            match r {
                TextOrder::Less => pair_lt(self.key(), other.key()),
                TextOrder::Equal => self.key() == other.key(),
                TextOrder::Greater => pair_lt(other.key(), self.key()),
            },
    {
        compare_pair(
            self.parent_type.as_str(),
            self.field_name.as_str(),
            other.parent_type.as_str(),
            other.field_name.as_str(),
        )
    }
}

impl FieldArgument {
    /// The (type name, field name, argument name) key.
    pub fn sort_key(&self) -> (r: (&str, &str, &str))
        ensures
            (r.0@, r.1@, r.2@) == self.key(),
    {
        (self.parent_type.as_str(), self.field_name.as_str(), self.argument_name.as_str())
    }

    /// Whether the argument's type is non-null.
    pub fn is_required(&self) -> (r: bool)
        ensures
            r == self.wrappers.spec_is_nonnull(),
    {
        self.wrappers.is_nonnull()
    }

    /// Whether the argument must be given: its type is non-null and it has no default value.
    pub fn is_required_without_default_value(&self) -> (r: bool)
        ensures
            r == (self.wrappers.spec_is_nonnull() && !self.has_default),
    {
        self.is_required() && !self.has_default
    }

    /// Orders arguments by (type name, field name, argument name), the order the schema
    /// keeps them in.
    pub fn compare(&self, other: &FieldArgument) -> (r: TextOrder)
        ensures
            match r {
                TextOrder::Less => triple_lt(self.key(), other.key()),
                TextOrder::Equal => self.key() == other.key(),
                TextOrder::Greater => triple_lt(other.key(), self.key()),
            },
    {
        compare_triple(
            self.parent_type.as_str(),
            self.field_name.as_str(),
            self.argument_name.as_str(),
            other.parent_type.as_str(),
            other.field_name.as_str(),
            other.argument_name.as_str(),
        )
    }
}

} // verus!
