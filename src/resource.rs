use vstd::prelude::*;
use vstd::string::StringExecFns;
use crate::template::{
    Piece, binds, concat_pieces, distinct_keys, expand, lookup, plain_key, render, well_formed,
};

verus! {

/// The fixed operation sets a bound native type can be given.
pub enum ResourceKind {
    Owning,
    Shared,
    Weak,
    DynamicArray,
}

/// The operations each resource kind provides, in the order they are emitted.
pub open spec fn operations(kind: ResourceKind) -> Seq<Seq<char>> {
    match kind {
        ResourceKind::Owning => seq!["delete"@],
        ResourceKind::Shared => seq!["delete"@, "clone"@],
        ResourceKind::Weak => seq!["delete"@, "clone"@, "upgrade"@, "downgrade"@],
        ResourceKind::DynamicArray => seq![
            "delete"@,
            "size"@,
            "get"@,
            "get_mut"@,
            "push_back"@,
            "pop_back"@,
        ],
    }
}

/// The external symbol of one operation: the link prefix, `_`, the operation.
pub open spec fn symbol(prefix: Seq<char>, op: Seq<char>) -> Seq<char> {
    prefix + "_"@ + op
}

/// What precedes the symbol of operation `i` in the source of `kind`.
pub open spec fn block_lead(kind: ResourceKind, i: int, c_item_tp: Seq<char>) -> Seq<char> {
    if i == 0 {
        "extern \"C\" void "@
    } else {
        match kind {
            ResourceKind::Weak => if i == 3 {
                "\nextern \"C\"  void "@
            } else {
                "\nextern \"C\" void "@
            },
            ResourceKind::DynamicArray => if i == 1 {
                "\nextern \"C\" std::size_t "@
            } else if i == 2 {
                "\nextern \"C\" const "@ + c_item_tp + "& "@
            } else if i == 3 {
                "\nextern \"C\" "@ + c_item_tp + "& "@
            } else {
                "\nextern \"C\" void "@
            },
            _ => "\nextern \"C\" void "@,
        }
    }
}

/// What follows the opening parenthesis of operation `i` in the source of `kind`.
pub open spec fn block_rest(
    kind: ResourceKind,
    i: int,
    c_tp: Seq<char>,
    c_shared_tp: Seq<char>,
    c_item_tp: Seq<char>,
) -> Seq<char> {
    match kind {
        ResourceKind::DynamicArray => if i == 0 {
            "const "@ + c_tp + " &self) {\n    rxx::destroy(&self);\n}\n"@
        } else if i == 1 {
            "const "@ + c_tp + " &self) {\n    return rxx::vector_size(self);\n}\n"@
        } else if i == 2 {
            "const "@ + c_tp + " &self, size_t pos) {\n    return rxx::vector_get(self, pos);\n}\n"@
        } else if i == 3 {
            c_tp + " &self, size_t pos) {\n    return rxx::vector_get_mut(self, pos);\n}\n"@
        } else if i == 4 {
            c_tp + " &self, "@ + c_item_tp
                + " &val) {\n    return rxx::vector_push_back(self, val);\n}\n"@
        } else {
            c_tp + " &self, "@ + c_item_tp + " *out) {\n    rxx::vector_pop_back(self, out);\n}\n"@
        },
        _ => if i == 0 {
            c_tp + " &self) noexcept {\n    rxx::destroy(&self);\n}\n"@
        } else if i == 1 {
            if kind is Shared {
                "const "@ + c_tp + " &self, "@ + c_tp
                    + " *out) noexcept {\n    rxx::shared_ptr_clone(self, out);\n}\n"@
            } else {
                "const "@ + c_tp + " &self, "@ + c_tp
                    + " *out) noexcept {\n    rxx::weak_ptr_clone(self, out);\n}\n"@
            }
        } else if i == 2 {
            "const "@ + c_tp + " &self, "@ + c_shared_tp
                + " *out) {\n    rxx::weak_ptr_upgrade(self, out);\n}\n"@
        } else {
            "const "@ + c_shared_tp + " &self, "@ + c_tp
                + " *out) {\n    rxx::weak_ptr_downgrade(self, out);\n}\n"@
        },
    }
}

/// The definition of operation `i` of `kind`: it defines the symbol
/// `link_name` `_` operation.
pub open spec fn block(
    kind: ResourceKind,
    i: int,
    link: Seq<char>,
    c_tp: Seq<char>,
    c_shared_tp: Seq<char>,
    c_item_tp: Seq<char>,
) -> Seq<char> {
    block_lead(kind, i, c_item_tp) + symbol(link, operations(kind)[i]) + "("@ + block_rest(
        kind,
        i,
        c_tp,
        c_shared_tp,
        c_item_tp,
    )
}

/// The definitions of the first `n` operations of `kind`, one after another.
pub open spec fn blocks(
    kind: ResourceKind,
    n: nat,
    link: Seq<char>,
    c_tp: Seq<char>,
    c_shared_tp: Seq<char>,
    c_item_tp: Seq<char>,
) -> Seq<char>
    decreases n,
{
    if n == 0 {
        Seq::empty()
    } else {
        blocks(kind, (n - 1) as nat, link, c_tp, c_shared_tp, c_item_tp) + block(
            kind,
            n - 1,
            link,
            c_tp,
            c_shared_tp,
            c_item_tp,
        )
    }
}

/// The native glue emitted for `kind`: one definition per operation.
pub open spec fn resource_source(
    kind: ResourceKind,
    link: Seq<char>,
    c_tp: Seq<char>,
    c_shared_tp: Seq<char>,
    c_item_tp: Seq<char>,
) -> Seq<char> {
    blocks(kind, operations(kind).len(), link, c_tp, c_shared_tp, c_item_tp)
}

/// The facts about `e` that the resource templates are rendered on.
pub open spec fn resource_entries_ok(e: Seq<(&str, String)>) -> bool {
    &&& distinct_keys(e)
    &&& binds(e, "link_name"@) && binds(e, "c_tp"@)
    &&& binds(e, "c_shared_tp"@) && binds(e, "c_item_tp"@)
    &&& plain_key("link_name"@) && plain_key("c_tp"@)
    &&& plain_key("c_shared_tp"@) && plain_key("c_item_tp"@)
}

/// The entries every resource template is rendered against.
fn resource_entries(link: &str, c_tp: &str, c_shared_tp: &str, c_item_tp: &str) -> (r: Vec<
    (&'static str, String),
>)
    ensures
        resource_entries_ok(r@),
        lookup(r@, "link_name"@) == link@,
        lookup(r@, "c_tp"@) == c_tp@,
        lookup(r@, "c_shared_tp"@) == c_shared_tp@,
        lookup(r@, "c_item_tp"@) == c_item_tp@,
{
    let r = vec![
        ("link_name", String::from_str(link)),
        ("c_tp", String::from_str(c_tp)),
        ("c_shared_tp", String::from_str(c_shared_tp)),
        ("c_item_tp", String::from_str(c_item_tp)),
    ];
    proof {
        reveal_strlit("link_name");
        reveal_strlit("c_tp");
        reveal_strlit("c_shared_tp");
        reveal_strlit("c_item_tp");
        reveal_with_fuel(lookup, 5);
        reveal_with_fuel(binds, 5);
        let e = r@;
        let e1 = e.drop_first();
        let e2 = e1.drop_first();
        let e3 = e2.drop_first();
        assert(e1[0] == e[1] && e2[0] == e[2] && e3[0] == e[3]);
        assert(e3.drop_first().len() == 0);
        assert(e[0].0@[0] != e[3].0@[0]);
        assert(e[1].0@[2] != e[3].0@[2]);
        assert(e[2].0@[2] != e[3].0@[2]);
        assert(distinct_keys(e));
        assert("link_name"@[4] == '_');
        assert("c_tp"@[1] == '_');
        assert("c_shared_tp"@[1] == '_');
        assert("c_item_tp"@[1] == '_');
    }
    r
}

/// Definition `i` of `kind` with the values that `e` binds.
pub open spec fn entry_block(kind: ResourceKind, i: int, e: Seq<(&str, String)>) -> Seq<char> {
    block(
        kind,
        i,
        lookup(e, "link_name"@),
        lookup(e, "c_tp"@),
        lookup(e, "c_shared_tp"@),
        lookup(e, "c_item_tp"@),
    )
}

/// The template of the destructor of a pointer kind.
#[verifier::rlimit(50)]
fn ptr_delete_pieces(kind: ResourceKind) -> (r: Vec<Piece>)
    requires
        !(kind is DynamicArray),
    ensures
        forall|e: Seq<(&str, String)>|
            #[trigger] resource_entries_ok(e) ==> well_formed(r@, e) && expand(r@, e) == entry_block(
                kind,
                0,
                e,
            ),
{
    let r = vec![
        Piece::Text("extern \"C\" void "),
        Piece::Raw("link_name"),
        Piece::Text("_"),
        Piece::Text("delete"),
        Piece::Text("("),
        Piece::Raw("c_tp"),
        Piece::Text(" &self) noexcept {\n    rxx::destroy(&self);\n}\n"),
    ];
    proof {
        reveal_strlit(" &self) noexcept {\n    rxx::destroy(&self);\n}\n");
        reveal_strlit("(");
        reveal_strlit("_");
        reveal_strlit("delete");
        reveal_strlit("extern \"C\" void ");
        reveal_with_fuel(expand, 8);
        assert forall|e: Seq<(&str, String)>| #[trigger] resource_entries_ok(e) implies well_formed(r@, e)
            && expand(r@, e) == entry_block(kind, 0, e) by {
            assert(expand(r@, e) =~= entry_block(kind, 0, e));
        }
    }
    r
}

/// The template of the strong clone.
#[verifier::rlimit(50)]
fn shared_clone_pieces() -> (r: Vec<Piece>)
    ensures
        forall|e: Seq<(&str, String)>|
            #[trigger] resource_entries_ok(e) ==> well_formed(r@, e) && expand(r@, e) == entry_block(
                ResourceKind::Shared,
                1,
                e,
            ),
{
    let r = vec![
        Piece::Text("\nextern \"C\" void "),
        Piece::Raw("link_name"),
        Piece::Text("_"),
        Piece::Text("clone"),
        Piece::Text("("),
        Piece::Text("const "),
        Piece::Raw("c_tp"),
        Piece::Text(" &self, "),
        Piece::Raw("c_tp"),
        Piece::Text(" *out) noexcept {\n    rxx::shared_ptr_clone(self, out);\n}\n"),
    ];
    proof {
        reveal_strlit(" &self, ");
        reveal_strlit(" *out) noexcept {\n    rxx::shared_ptr_clone(self, out);\n}\n");
        reveal_strlit("(");
        reveal_strlit("\nextern \"C\" void ");
        reveal_strlit("_");
        reveal_strlit("clone");
        reveal_strlit("const ");
        reveal_with_fuel(expand, 11);
        assert forall|e: Seq<(&str, String)>| #[trigger] resource_entries_ok(e) implies well_formed(r@, e)
            && expand(r@, e) == entry_block(ResourceKind::Shared, 1, e) by {
            assert(expand(r@, e) =~= entry_block(ResourceKind::Shared, 1, e));
        }
    }
    r
}

/// The template of the weak clone.
#[verifier::rlimit(50)]
fn weak_clone_pieces() -> (r: Vec<Piece>)
    ensures
        forall|e: Seq<(&str, String)>|
            #[trigger] resource_entries_ok(e) ==> well_formed(r@, e) && expand(r@, e) == entry_block(
                ResourceKind::Weak,
                1,
                e,
            ),
{
    let r = vec![
        Piece::Text("\nextern \"C\" void "),
        Piece::Raw("link_name"),
        Piece::Text("_"),
        Piece::Text("clone"),
        Piece::Text("("),
        Piece::Text("const "),
        Piece::Raw("c_tp"),
        Piece::Text(" &self, "),
        Piece::Raw("c_tp"),
        Piece::Text(" *out) noexcept {\n    rxx::weak_ptr_clone(self, out);\n}\n"),
    ];
    proof {
        reveal_strlit(" &self, ");
        reveal_strlit(" *out) noexcept {\n    rxx::weak_ptr_clone(self, out);\n}\n");
        reveal_strlit("(");
        reveal_strlit("\nextern \"C\" void ");
        reveal_strlit("_");
        reveal_strlit("clone");
        reveal_strlit("const ");
        reveal_with_fuel(expand, 11);
        assert forall|e: Seq<(&str, String)>| #[trigger] resource_entries_ok(e) implies well_formed(r@, e)
            && expand(r@, e) == entry_block(ResourceKind::Weak, 1, e) by {
            assert(expand(r@, e) =~= entry_block(ResourceKind::Weak, 1, e));
        }
    }
    r
}

/// The template of the upgrade to a strong pointer.
#[verifier::rlimit(50)]
fn weak_upgrade_pieces() -> (r: Vec<Piece>)
    ensures
        forall|e: Seq<(&str, String)>|
            #[trigger] resource_entries_ok(e) ==> well_formed(r@, e) && expand(r@, e) == entry_block(
                ResourceKind::Weak,
                2,
                e,
            ),
{
    let r = vec![
        Piece::Text("\nextern \"C\" void "),
        Piece::Raw("link_name"),
        Piece::Text("_"),
        Piece::Text("upgrade"),
        Piece::Text("("),
        Piece::Text("const "),
        Piece::Raw("c_tp"),
        Piece::Text(" &self, "),
        Piece::Raw("c_shared_tp"),
        Piece::Text(" *out) {\n    rxx::weak_ptr_upgrade(self, out);\n}\n"),
    ];
    proof {
        reveal_strlit(" &self, ");
        reveal_strlit(" *out) {\n    rxx::weak_ptr_upgrade(self, out);\n}\n");
        reveal_strlit("(");
        reveal_strlit("\nextern \"C\" void ");
        reveal_strlit("_");
        reveal_strlit("const ");
        reveal_strlit("upgrade");
        reveal_with_fuel(expand, 11);
        assert forall|e: Seq<(&str, String)>| #[trigger] resource_entries_ok(e) implies well_formed(r@, e)
            && expand(r@, e) == entry_block(ResourceKind::Weak, 2, e) by {
            assert(expand(r@, e) =~= entry_block(ResourceKind::Weak, 2, e));
        }
    }
    r
}

/// The template of the downgrade from a strong pointer.
#[verifier::rlimit(50)]
fn weak_downgrade_pieces() -> (r: Vec<Piece>)
    ensures
        forall|e: Seq<(&str, String)>|
            #[trigger] resource_entries_ok(e) ==> well_formed(r@, e) && expand(r@, e) == entry_block(
                ResourceKind::Weak,
                3,
                e,
            ),
{
    let r = vec![
        Piece::Text("\nextern \"C\"  void "),
        Piece::Raw("link_name"),
        Piece::Text("_"),
        Piece::Text("downgrade"),
        Piece::Text("("),
        Piece::Text("const "),
        Piece::Raw("c_shared_tp"),
        Piece::Text(" &self, "),
        Piece::Raw("c_tp"),
        Piece::Text(" *out) {\n    rxx::weak_ptr_downgrade(self, out);\n}\n"),
    ];
    proof {
        reveal_strlit(" &self, ");
        reveal_strlit(" *out) {\n    rxx::weak_ptr_downgrade(self, out);\n}\n");
        reveal_strlit("(");
        reveal_strlit("\nextern \"C\"  void ");
        reveal_strlit("_");
        reveal_strlit("const ");
        reveal_strlit("downgrade");
        reveal_with_fuel(expand, 11);
        assert forall|e: Seq<(&str, String)>| #[trigger] resource_entries_ok(e) implies well_formed(r@, e)
            && expand(r@, e) == entry_block(ResourceKind::Weak, 3, e) by {
            assert(expand(r@, e) =~= entry_block(ResourceKind::Weak, 3, e));
        }
    }
    r
}

/// The template of the destructor of an array.
#[verifier::rlimit(50)]
fn vector_delete_pieces() -> (r: Vec<Piece>)
    ensures
        forall|e: Seq<(&str, String)>|
            #[trigger] resource_entries_ok(e) ==> well_formed(r@, e) && expand(r@, e) == entry_block(
                ResourceKind::DynamicArray,
                0,
                e,
            ),
{
    let r = vec![
        Piece::Text("extern \"C\" void "),
        Piece::Raw("link_name"),
        Piece::Text("_"),
        Piece::Text("delete"),
        Piece::Text("("),
        Piece::Text("const "),
        Piece::Raw("c_tp"),
        Piece::Text(" &self) {\n    rxx::destroy(&self);\n}\n"),
    ];
    proof {
        reveal_strlit(" &self) {\n    rxx::destroy(&self);\n}\n");
        reveal_strlit("(");
        reveal_strlit("_");
        reveal_strlit("const ");
        reveal_strlit("delete");
        reveal_strlit("extern \"C\" void ");
        reveal_with_fuel(expand, 9);
        assert forall|e: Seq<(&str, String)>| #[trigger] resource_entries_ok(e) implies well_formed(r@, e)
            && expand(r@, e) == entry_block(ResourceKind::DynamicArray, 0, e) by {
            assert(expand(r@, e) =~= entry_block(ResourceKind::DynamicArray, 0, e));
        }
    }
    r
}

/// The template of the length of an array.
#[verifier::rlimit(50)]
fn vector_size_pieces() -> (r: Vec<Piece>)
    ensures
        forall|e: Seq<(&str, String)>|
            #[trigger] resource_entries_ok(e) ==> well_formed(r@, e) && expand(r@, e) == entry_block(
                ResourceKind::DynamicArray,
                1,
                e,
            ),
{
    let r = vec![
        Piece::Text("\nextern \"C\" std::size_t "),
        Piece::Raw("link_name"),
        Piece::Text("_"),
        Piece::Text("size"),
        Piece::Text("("),
        Piece::Text("const "),
        Piece::Raw("c_tp"),
        Piece::Text(" &self) {\n    return rxx::vector_size(self);\n}\n"),
    ];
    proof {
        reveal_strlit(" &self) {\n    return rxx::vector_size(self);\n}\n");
        reveal_strlit("(");
        reveal_strlit("\nextern \"C\" std::size_t ");
        reveal_strlit("_");
        reveal_strlit("const ");
        reveal_strlit("size");
        reveal_with_fuel(expand, 9);
        assert forall|e: Seq<(&str, String)>| #[trigger] resource_entries_ok(e) implies well_formed(r@, e)
            && expand(r@, e) == entry_block(ResourceKind::DynamicArray, 1, e) by {
            assert(expand(r@, e) =~= entry_block(ResourceKind::DynamicArray, 1, e));
        }
    }
    r
}

/// The template of shared access to an element.
#[verifier::rlimit(50)]
fn vector_get_pieces() -> (r: Vec<Piece>)
    ensures
        forall|e: Seq<(&str, String)>|
            #[trigger] resource_entries_ok(e) ==> well_formed(r@, e) && expand(r@, e) == entry_block(
                ResourceKind::DynamicArray,
                2,
                e,
            ),
{
    let r = vec![
        Piece::Text("\nextern \"C\" const "),
        Piece::Raw("c_item_tp"),
        Piece::Text("& "),
        Piece::Raw("link_name"),
        Piece::Text("_"),
        Piece::Text("get"),
        Piece::Text("("),
        Piece::Text("const "),
        Piece::Raw("c_tp"),
        Piece::Text(" &self, size_t pos) {\n    return rxx::vector_get(self, pos);\n}\n"),
    ];
    proof {
        reveal_strlit(" &self, size_t pos) {\n    return rxx::vector_get(self, pos);\n}\n");
        reveal_strlit("& ");
        reveal_strlit("(");
        reveal_strlit("\nextern \"C\" const ");
        reveal_strlit("_");
        reveal_strlit("const ");
        reveal_strlit("get");
        reveal_with_fuel(expand, 11);
        assert forall|e: Seq<(&str, String)>| #[trigger] resource_entries_ok(e) implies well_formed(r@, e)
            && expand(r@, e) == entry_block(ResourceKind::DynamicArray, 2, e) by {
            assert(expand(r@, e) =~= entry_block(ResourceKind::DynamicArray, 2, e));
        }
    }
    r
}

/// The template of mutable access to an element.
#[verifier::rlimit(50)]
fn vector_get_mut_pieces() -> (r: Vec<Piece>)
    ensures
        forall|e: Seq<(&str, String)>|
            #[trigger] resource_entries_ok(e) ==> well_formed(r@, e) && expand(r@, e) == entry_block(
                ResourceKind::DynamicArray,
                3,
                e,
            ),
{
    let r = vec![
        Piece::Text("\nextern \"C\" "),
        Piece::Raw("c_item_tp"),
        Piece::Text("& "),
        Piece::Raw("link_name"),
        Piece::Text("_"),
        Piece::Text("get_mut"),
        Piece::Text("("),
        Piece::Raw("c_tp"),
        Piece::Text(" &self, size_t pos) {\n    return rxx::vector_get_mut(self, pos);\n}\n"),
    ];
    proof {
        reveal_strlit(" &self, size_t pos) {\n    return rxx::vector_get_mut(self, pos);\n}\n");
        reveal_strlit("& ");
        reveal_strlit("(");
        reveal_strlit("\nextern \"C\" ");
        reveal_strlit("_");
        reveal_strlit("get_mut");
        reveal_with_fuel(expand, 10);
        assert forall|e: Seq<(&str, String)>| #[trigger] resource_entries_ok(e) implies well_formed(r@, e)
            && expand(r@, e) == entry_block(ResourceKind::DynamicArray, 3, e) by {
            assert(expand(r@, e) =~= entry_block(ResourceKind::DynamicArray, 3, e));
        }
    }
    r
}

/// The template of the append.
#[verifier::rlimit(50)]
fn vector_push_back_pieces() -> (r: Vec<Piece>)
    ensures
        forall|e: Seq<(&str, String)>|
            #[trigger] resource_entries_ok(e) ==> well_formed(r@, e) && expand(r@, e) == entry_block(
                ResourceKind::DynamicArray,
                4,
                e,
            ),
{
    let r = vec![
        Piece::Text("\nextern \"C\" void "),
        Piece::Raw("link_name"),
        Piece::Text("_"),
        Piece::Text("push_back"),
        Piece::Text("("),
        Piece::Raw("c_tp"),
        Piece::Text(" &self, "),
        Piece::Raw("c_item_tp"),
        Piece::Text(" &val) {\n    return rxx::vector_push_back(self, val);\n}\n"),
    ];
    proof {
        reveal_strlit(" &self, ");
        reveal_strlit(" &val) {\n    return rxx::vector_push_back(self, val);\n}\n");
        reveal_strlit("(");
        reveal_strlit("\nextern \"C\" void ");
        reveal_strlit("_");
        reveal_strlit("push_back");
        reveal_with_fuel(expand, 10);
        assert forall|e: Seq<(&str, String)>| #[trigger] resource_entries_ok(e) implies well_formed(r@, e)
            && expand(r@, e) == entry_block(ResourceKind::DynamicArray, 4, e) by {
            assert(expand(r@, e) =~= entry_block(ResourceKind::DynamicArray, 4, e));
        }
    }
    r
}

/// The template of the removal of the last element.
#[verifier::rlimit(50)]
fn vector_pop_back_pieces() -> (r: Vec<Piece>)
    ensures
        forall|e: Seq<(&str, String)>|
            #[trigger] resource_entries_ok(e) ==> well_formed(r@, e) && expand(r@, e) == entry_block(
                ResourceKind::DynamicArray,
                5,
                e,
            ),
{
    let r = vec![
        Piece::Text("\nextern \"C\" void "),
        Piece::Raw("link_name"),
        Piece::Text("_"),
        Piece::Text("pop_back"),
        Piece::Text("("),
        Piece::Raw("c_tp"),
        Piece::Text(" &self, "),
        Piece::Raw("c_item_tp"),
        Piece::Text(" *out) {\n    rxx::vector_pop_back(self, out);\n}\n"),
    ];
    proof {
        reveal_strlit(" &self, ");
        reveal_strlit(" *out) {\n    rxx::vector_pop_back(self, out);\n}\n");
        reveal_strlit("(");
        reveal_strlit("\nextern \"C\" void ");
        reveal_strlit("_");
        reveal_strlit("pop_back");
        reveal_with_fuel(expand, 10);
        assert forall|e: Seq<(&str, String)>| #[trigger] resource_entries_ok(e) implies well_formed(r@, e)
            && expand(r@, e) == entry_block(ResourceKind::DynamicArray, 5, e) by {
            assert(expand(r@, e) =~= entry_block(ResourceKind::DynamicArray, 5, e));
        }
    }
    r
}

/// Native glue for the owning kind: `{prefix}_delete`.
pub fn genc_unique_ptr(link_name: &str, c_tp: &str) -> (r: String)
    ensures
        r@ == resource_source(ResourceKind::Owning, link_name@, c_tp@, ""@, ""@),
{
    let e = resource_entries(link_name, c_tp, "", "");
    let ps = ptr_delete_pieces(ResourceKind::Owning);
    proof {
        reveal_strlit("");
        reveal_with_fuel(blocks, 7);
        assert(expand(ps@, e@) =~= resource_source(ResourceKind::Owning, link_name@, c_tp@, ""@, ""@));
    }
    render(&ps, &e)
}

/// Native glue for the shared kind: `{prefix}_delete` and `{prefix}_clone`.
pub fn genc_shared_ptr(link_name: &str, c_tp: &str) -> (r: String)
    ensures
        r@ == resource_source(ResourceKind::Shared, link_name@, c_tp@, ""@, ""@),
{
    let e = resource_entries(link_name, c_tp, "", "");
    let ps = ptr_delete_pieces(ResourceKind::Shared);
    let ps = concat_pieces(ps, shared_clone_pieces(), Ghost(e@));
    proof {
        reveal_strlit("");
        reveal_with_fuel(blocks, 7);
        assert(expand(ps@, e@) =~= resource_source(ResourceKind::Shared, link_name@, c_tp@, ""@, ""@));
    }
    render(&ps, &e)
}

/// Native glue for the weak kind, whose strong counterpart is `c_shared_tp`:
/// `{prefix}_delete`, `_clone`, `_upgrade` and `_downgrade`.
pub fn genc_weak_ptr(link_name: &str, c_tp: &str, c_shared_tp: &str) -> (r: String)
    ensures
        r@ == resource_source(ResourceKind::Weak, link_name@, c_tp@, c_shared_tp@, ""@),
{
    let e = resource_entries(link_name, c_tp, c_shared_tp, "");
    let ps = ptr_delete_pieces(ResourceKind::Weak);
    let ps = concat_pieces(ps, weak_clone_pieces(), Ghost(e@));
    let ps = concat_pieces(ps, weak_upgrade_pieces(), Ghost(e@));
    let ps = concat_pieces(ps, weak_downgrade_pieces(), Ghost(e@));
    proof {
        reveal_strlit("");
        reveal_with_fuel(blocks, 7);
        assert(expand(ps@, e@) =~= resource_source(ResourceKind::Weak, link_name@, c_tp@, c_shared_tp@, ""@));
    }
    render(&ps, &e)
}

/// Native glue for the dynamic-array kind over elements `c_item_tp`:
/// `{prefix}_delete`, `_size`, `_get`, `_get_mut`, `_push_back` and `_pop_back`.
pub fn genc_vector(link_name: &str, c_tp: &str, c_item_tp: &str) -> (r: String)
    ensures
        r@ == resource_source(ResourceKind::DynamicArray, link_name@, c_tp@, ""@, c_item_tp@),
{
    let e = resource_entries(link_name, c_tp, "", c_item_tp);
    let ps = vector_delete_pieces();
    let ps = concat_pieces(ps, vector_size_pieces(), Ghost(e@));
    let ps = concat_pieces(ps, vector_get_pieces(), Ghost(e@));
    let ps = concat_pieces(ps, vector_get_mut_pieces(), Ghost(e@));
    let ps = concat_pieces(ps, vector_push_back_pieces(), Ghost(e@));
    let ps = concat_pieces(ps, vector_pop_back_pieces(), Ghost(e@));
    proof {
        reveal_strlit("");
        reveal_with_fuel(blocks, 7);
        assert(expand(ps@, e@) =~= resource_source(ResourceKind::DynamicArray, link_name@, c_tp@, ""@, c_item_tp@));
    }
    render(&ps, &e)
}

/// The number of operations each kind provides.
pub open spec fn operation_count(kind: ResourceKind) -> nat {
    match kind {
        ResourceKind::Owning => 1,
        ResourceKind::Shared => 2,
        ResourceKind::Weak => 4,
        ResourceKind::DynamicArray => 6,
    }
}

/// The owning kind emits one definition, the shared two, the weak four and the
/// dynamic array six, definition `i` being that of the symbol `link_name` `_`
/// operation `i`; whatever the link name, no two of these symbols coincide.
pub proof fn law_resource_kind_symbols(
    kind: ResourceKind,
    link: Seq<char>,
    c_tp: Seq<char>,
    c_shared_tp: Seq<char>,
    c_item_tp: Seq<char>,
)
    ensures
        operations(kind).len() == operation_count(kind),
        resource_source(kind, link, c_tp, c_shared_tp, c_item_tp) == blocks(
            kind,
            operation_count(kind),
            link,
            c_tp,
            c_shared_tp,
            c_item_tp,
        ),
        forall|i: int, j: int|
            0 <= i < j < operations(kind).len() ==> symbol(link, operations(kind)[i])
                != symbol(link, operations(kind)[j]),
{
    let prefix = link;
    reveal_strlit("delete");
    reveal_strlit("clone");
    reveal_strlit("upgrade");
    reveal_strlit("downgrade");
    reveal_strlit("size");
    reveal_strlit("get");
    reveal_strlit("get_mut");
    reveal_strlit("push_back");
    reveal_strlit("pop_back");
    let ops = operations(kind);
    assert forall|i: int, j: int| 0 <= i < j < ops.len() implies symbol(prefix, ops[i]) != symbol(
        prefix,
        ops[j],
    ) by {
        let head = prefix + "_"@;
        assert(ops[i] != ops[j]) by {
            if ops[i].len() == ops[j].len() {
                assert(ops[i][0] != ops[j][0] || ops[i][1] != ops[j][1]);
            }
        };
        if symbol(prefix, ops[i]) == symbol(prefix, ops[j]) {
            assert(symbol(prefix, ops[i]) == head + ops[i]);
            assert((head + ops[i]).subrange(head.len() as int, (head + ops[i]).len() as int)
                =~= ops[i]);
            assert((head + ops[j]).subrange(head.len() as int, (head + ops[j]).len() as int)
                =~= ops[j]);
        }
    }
}

} // verus!
