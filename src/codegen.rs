use vstd::prelude::*;
use vstd::string::StringExecFns;
use crate::signature::{
    FnSig, ReturnType, call_args, call_args_of, decl_arg, join, lead_params, link_param_list,
    out_param, receiver_param, call_text, cls_text, decl_args, decl_args_of,
    decl_text, fn_text, link_params, link_params_of, replace_cls, ret_text,
};
use crate::template::{
    Piece, binds, distinct_keys, expand, lookup, plain_key, render, well_formed,
};

verus! {

/// The nine trampoline shapes: receiver (none, const, mutable) by return category.
pub enum FnTemplate {
    VoidFn,
    AtomicFn,
    ObjectFn,
    VoidMemfn,
    AtomicMemfn,
    ObjectMemfn,
    VoidMemfnMut,
    AtomicMemfnMut,
    ObjectMemfnMut,
}

/// The trampoline shape a signature selects.
pub open spec fn template_of(sig: FnSig) -> FnTemplate {
    match sig.cls {
        None => match sig.ret_type {
            ReturnType::Void => FnTemplate::VoidFn,
            ReturnType::Atomic(_) => FnTemplate::AtomicFn,
            ReturnType::Object(_) => FnTemplate::ObjectFn,
        },
        Some(_) => if sig.is_mut {
            match sig.ret_type {
                ReturnType::Void => FnTemplate::VoidMemfnMut,
                ReturnType::Atomic(_) => FnTemplate::AtomicMemfnMut,
                ReturnType::Object(_) => FnTemplate::ObjectMemfnMut,
            }
        } else {
            match sig.ret_type {
                ReturnType::Void => FnTemplate::VoidMemfn,
                ReturnType::Atomic(_) => FnTemplate::AtomicMemfn,
                ReturnType::Object(_) => FnTemplate::ObjectMemfn,
            }
        },
    }
}

/// The source of trampoline shape `t`, named `link`, with parameter list `params`,
/// callable `func` of declared arguments `decl`, forwarded arguments `call`,
/// return type `ret` and receiver class `cls`.
pub open spec fn trampoline_source(
    t: FnTemplate,
    link: Seq<char>,
    params: Seq<char>,
    decl: Seq<char>,
    call: Seq<char>,
    func: Seq<char>,
    ret: Seq<char>,
    cls: Seq<char>,
) -> Seq<char> {
    match t {
        FnTemplate::VoidFn => {
            "extern \"C\" void "@ + link + "("@ + params
                + ") noexcept {\n    void (*__func)("@ + decl + ") = "@ + func + ";\n    __func("@
                + call + ");\n}\n"@
        },
        FnTemplate::AtomicFn => {
            "extern \"C\" "@ + ret + " "@ + link + "("@ + params
                + ") noexcept {\n    "@ + ret + " (*__func)("@ + decl + ") = "@ + func
                + ";\n    return __func("@ + call + ");\n}\n"@
        },
        FnTemplate::ObjectFn => {
            "extern \"C\" void "@ + link + "("@ + params + ") noexcept {\n    "@ + ret
                + " (*__func)("@ + decl + ") = "@ + func + ";\n    new (__ret) ("@ + ret
                + ")(__func("@ + call + "));\n}\n"@
        },
        FnTemplate::VoidMemfn => {
            "extern \"C\" void "@ + link + "("@ + params + ") noexcept {\n    void ("@
                + cls + "::*__func)("@ + decl + ") const = "@ + func + ";\n    (self.*__func)("@
                + call + ");\n}\n"@
        },
        FnTemplate::AtomicMemfn => {
            "extern \"C\" "@ + ret + " "@ + link + "("@ + params
                + ") noexcept {\n    "@ + ret + " ("@ + cls + "::*__func)("@ + decl + ") const = "@
                + func + ";\n    return (self.*__func)("@ + call + ");\n}\n"@
        },
        FnTemplate::ObjectMemfn => {
            "extern \"C\" void "@ + link + "("@ + params + ") noexcept {\n    "@ + ret
                + " ("@ + cls + "::*__func)("@ + decl + ") const = "@ + func
                + ";\n    new (__ret) "@ + ret + "((self.*__func)("@ + call + "));\n}\n"@
        },
        FnTemplate::VoidMemfnMut => {
            "extern \"C\" void "@ + link + "("@ + params + ") noexcept {\n    void ("@
                + cls + "::*__func)("@ + decl + ") = "@ + func + ";\n    (self.*__func)("@ + call
                + ");\n}\n"@
        },
        FnTemplate::AtomicMemfnMut => {
            "extern \"C\" "@ + ret + " "@ + link + "("@ + params
                + ") noexcept {\n    "@ + ret + " ("@ + cls + "::*__func)("@ + decl + ") = "@ + func
                + ";\n    return (self.*__func)("@ + call + ");\n}\n"@
        },
        FnTemplate::ObjectMemfnMut => {
            "extern \"C\" void "@ + link + "("@ + params + ") noexcept {\n    "@ + ret
                + " ("@ + cls + "::*__func)("@ + decl + ") = "@ + func + ";\n    new (__ret) "@
                + ret + "((self.*__func)("@ + call + "));\n}\n"@
        },
    }
}

/// The native source generated for `sig` under the external name `link`.
pub open spec fn generated_fn(link: Seq<char>, sig: FnSig) -> Seq<char> {
    trampoline_source(
        template_of(sig),
        link,
        link_params(sig),
        decl_text(sig),
        call_text(sig),
        fn_text(sig),
        ret_text(sig),
        cls_text(sig),
    )
}

/// The facts about `e` that the trampoline templates are rendered on.
pub open spec fn fn_entries_ok(e: Seq<(&str, String)>) -> bool {
    &&& distinct_keys(e)
    &&& binds(e, "link_name"@) && binds(e, "link_args"@) && binds(e, "decl_args"@)
    &&& binds(e, "call_args"@) && binds(e, "fn_name"@) && binds(e, "ret_type"@)
    &&& binds(e, "cls_name"@)
    &&& plain_key("link_name"@) && plain_key("link_args"@) && plain_key("decl_args"@)
    &&& plain_key("call_args"@) && plain_key("fn_name"@) && plain_key("ret_type"@)
    &&& plain_key("cls_name"@)
}

/// Trampoline shape `t` with the values that `e` binds.
pub open spec fn entry_source(t: FnTemplate, e: Seq<(&str, String)>) -> Seq<char> {
    trampoline_source(
        t,
        lookup(e, "link_name"@),
        lookup(e, "link_args"@),
        lookup(e, "decl_args"@),
        lookup(e, "call_args"@),
        lookup(e, "fn_name"@),
        lookup(e, "ret_type"@),
        lookup(e, "cls_name"@),
    )
}

/// The template for a free function returning nothing.
#[verifier::rlimit(50)]
fn void_fn_pieces() -> (r: Vec<Piece>)
    ensures
        forall|e: Seq<(&str, String)>|
            #[trigger] fn_entries_ok(e) ==> well_formed(r@, e) && expand(r@, e)
                == entry_source(FnTemplate::VoidFn, e),
{
    let r = vec![
        Piece::Text("extern \"C\" void "),
        Piece::Raw("link_name"),
        Piece::Text("("),
        Piece::Raw("link_args"),
        Piece::Text(") noexcept {\n    void (*__func)("),
        Piece::Raw("decl_args"),
        Piece::Text(") = "),
        Piece::Raw("fn_name"),
        Piece::Text(";\n    __func("),
        Piece::Raw("call_args"),
        Piece::Text(");\n}\n"),
    ];
    proof {
        reveal_strlit("(");
        reveal_strlit(") = ");
        reveal_strlit(") noexcept {\n    void (*__func)(");
        reveal_strlit(");\n}\n");
        reveal_strlit(";\n    __func(");
        reveal_strlit("extern \"C\" void ");
        reveal_with_fuel(expand, 12);
        assert forall|e: Seq<(&str, String)>| #[trigger] fn_entries_ok(e) implies well_formed(r@, e)
            && expand(r@, e) == entry_source(FnTemplate::VoidFn, e) by {
            assert(expand(r@, e) =~= entry_source(FnTemplate::VoidFn, e));
        }
    }
    r
}

/// The template for a free function returning by value.
#[verifier::rlimit(50)]
fn atomic_fn_pieces() -> (r: Vec<Piece>)
    ensures
        forall|e: Seq<(&str, String)>|
            #[trigger] fn_entries_ok(e) ==> well_formed(r@, e) && expand(r@, e)
                == entry_source(FnTemplate::AtomicFn, e),
{
    let r = vec![
        Piece::Text("extern \"C\" "),
        Piece::Raw("ret_type"),
        Piece::Text(" "),
        Piece::Raw("link_name"),
        Piece::Text("("),
        Piece::Raw("link_args"),
        Piece::Text(") noexcept {\n    "),
        Piece::Raw("ret_type"),
        Piece::Text(" (*__func)("),
        Piece::Raw("decl_args"),
        Piece::Text(") = "),
        Piece::Raw("fn_name"),
        Piece::Text(";\n    return __func("),
        Piece::Raw("call_args"),
        Piece::Text(");\n}\n"),
    ];
    proof {
        reveal_strlit(" ");
        reveal_strlit(" (*__func)(");
        reveal_strlit("(");
        reveal_strlit(") = ");
        reveal_strlit(") noexcept {\n    ");
        reveal_strlit(");\n}\n");
        reveal_strlit(";\n    return __func(");
        reveal_strlit("extern \"C\" ");
        reveal_with_fuel(expand, 16);
        assert forall|e: Seq<(&str, String)>| #[trigger] fn_entries_ok(e) implies well_formed(r@, e)
            && expand(r@, e) == entry_source(FnTemplate::AtomicFn, e) by {
            assert(expand(r@, e) =~= entry_source(FnTemplate::AtomicFn, e));
        }
    }
    r
}

/// The template for a free function constructing its result in place.
#[verifier::rlimit(50)]
fn object_fn_pieces() -> (r: Vec<Piece>)
    ensures
        forall|e: Seq<(&str, String)>|
            #[trigger] fn_entries_ok(e) ==> well_formed(r@, e) && expand(r@, e)
                == entry_source(FnTemplate::ObjectFn, e),
{
    let r = vec![
        Piece::Text("extern \"C\" void "),
        Piece::Raw("link_name"),
        Piece::Text("("),
        Piece::Raw("link_args"),
        Piece::Text(") noexcept {\n    "),
        Piece::Raw("ret_type"),
        Piece::Text(" (*__func)("),
        Piece::Raw("decl_args"),
        Piece::Text(") = "),
        Piece::Raw("fn_name"),
        Piece::Text(";\n    new (__ret) ("),
        Piece::Raw("ret_type"),
        Piece::Text(")(__func("),
        Piece::Raw("call_args"),
        Piece::Text("));\n}\n"),
    ];
    proof {
        reveal_strlit(" (*__func)(");
        reveal_strlit("(");
        reveal_strlit(") = ");
        reveal_strlit(") noexcept {\n    ");
        reveal_strlit(")(__func(");
        reveal_strlit("));\n}\n");
        reveal_strlit(";\n    new (__ret) (");
        reveal_strlit("extern \"C\" void ");
        reveal_with_fuel(expand, 16);
        assert forall|e: Seq<(&str, String)>| #[trigger] fn_entries_ok(e) implies well_formed(r@, e)
            && expand(r@, e) == entry_source(FnTemplate::ObjectFn, e) by {
            assert(expand(r@, e) =~= entry_source(FnTemplate::ObjectFn, e));
        }
    }
    r
}

/// The template for a const member returning nothing.
#[verifier::rlimit(50)]
fn void_memfn_pieces() -> (r: Vec<Piece>)
    ensures
        forall|e: Seq<(&str, String)>|
            #[trigger] fn_entries_ok(e) ==> well_formed(r@, e) && expand(r@, e)
                == entry_source(FnTemplate::VoidMemfn, e),
{
    let r = vec![
        Piece::Text("extern \"C\" void "),
        Piece::Raw("link_name"),
        Piece::Text("("),
        Piece::Raw("link_args"),
        Piece::Text(") noexcept {\n    void ("),
        Piece::Raw("cls_name"),
        Piece::Text("::*__func)("),
        Piece::Raw("decl_args"),
        Piece::Text(") const = "),
        Piece::Raw("fn_name"),
        Piece::Text(";\n    (self.*__func)("),
        Piece::Raw("call_args"),
        Piece::Text(");\n}\n"),
    ];
    proof {
        reveal_strlit("(");
        reveal_strlit(") const = ");
        reveal_strlit(") noexcept {\n    void (");
        reveal_strlit(");\n}\n");
        reveal_strlit("::*__func)(");
        reveal_strlit(";\n    (self.*__func)(");
        reveal_strlit("extern \"C\" void ");
        reveal_with_fuel(expand, 14);
        assert forall|e: Seq<(&str, String)>| #[trigger] fn_entries_ok(e) implies well_formed(r@, e)
            && expand(r@, e) == entry_source(FnTemplate::VoidMemfn, e) by {
            assert(expand(r@, e) =~= entry_source(FnTemplate::VoidMemfn, e));
        }
    }
    r
}

/// The template for a const member returning by value.
#[verifier::rlimit(50)]
fn atomic_memfn_pieces() -> (r: Vec<Piece>)
    ensures
        forall|e: Seq<(&str, String)>|
            #[trigger] fn_entries_ok(e) ==> well_formed(r@, e) && expand(r@, e)
                == entry_source(FnTemplate::AtomicMemfn, e),
{
    let r = vec![
        Piece::Text("extern \"C\" "),
        Piece::Raw("ret_type"),
        Piece::Text(" "),
        Piece::Raw("link_name"),
        Piece::Text("("),
        Piece::Raw("link_args"),
        Piece::Text(") noexcept {\n    "),
        Piece::Raw("ret_type"),
        Piece::Text(" ("),
        Piece::Raw("cls_name"),
        Piece::Text("::*__func)("),
        Piece::Raw("decl_args"),
        Piece::Text(") const = "),
        Piece::Raw("fn_name"),
        Piece::Text(";\n    return (self.*__func)("),
        Piece::Raw("call_args"),
        Piece::Text(");\n}\n"),
    ];
    proof {
        reveal_strlit(" ");
        reveal_strlit(" (");
        reveal_strlit("(");
        reveal_strlit(") const = ");
        reveal_strlit(") noexcept {\n    ");
        reveal_strlit(");\n}\n");
        reveal_strlit("::*__func)(");
        reveal_strlit(";\n    return (self.*__func)(");
        reveal_strlit("extern \"C\" ");
        reveal_with_fuel(expand, 18);
        assert forall|e: Seq<(&str, String)>| #[trigger] fn_entries_ok(e) implies well_formed(r@, e)
            && expand(r@, e) == entry_source(FnTemplate::AtomicMemfn, e) by {
            assert(expand(r@, e) =~= entry_source(FnTemplate::AtomicMemfn, e));
        }
    }
    r
}

/// The template for a const member constructing its result in place.
#[verifier::rlimit(50)]
fn object_memfn_pieces() -> (r: Vec<Piece>)
    ensures
        forall|e: Seq<(&str, String)>|
            #[trigger] fn_entries_ok(e) ==> well_formed(r@, e) && expand(r@, e)
                == entry_source(FnTemplate::ObjectMemfn, e),
{
    let r = vec![
        Piece::Text("extern \"C\" void "),
        Piece::Raw("link_name"),
        Piece::Text("("),
        Piece::Raw("link_args"),
        Piece::Text(") noexcept {\n    "),
        Piece::Raw("ret_type"),
        Piece::Text(" ("),
        Piece::Raw("cls_name"),
        Piece::Text("::*__func)("),
        Piece::Raw("decl_args"),
        Piece::Text(") const = "),
        Piece::Raw("fn_name"),
        Piece::Text(";\n    new (__ret) "),
        Piece::Raw("ret_type"),
        Piece::Text("((self.*__func)("),
        Piece::Raw("call_args"),
        Piece::Text("));\n}\n"),
    ];
    proof {
        reveal_strlit(" (");
        reveal_strlit("(");
        reveal_strlit("((self.*__func)(");
        reveal_strlit(") const = ");
        reveal_strlit(") noexcept {\n    ");
        reveal_strlit("));\n}\n");
        reveal_strlit("::*__func)(");
        reveal_strlit(";\n    new (__ret) ");
        reveal_strlit("extern \"C\" void ");
        reveal_with_fuel(expand, 18);
        assert forall|e: Seq<(&str, String)>| #[trigger] fn_entries_ok(e) implies well_formed(r@, e)
            && expand(r@, e) == entry_source(FnTemplate::ObjectMemfn, e) by {
            assert(expand(r@, e) =~= entry_source(FnTemplate::ObjectMemfn, e));
        }
    }
    r
}

/// The template for a mutable member returning nothing.
#[verifier::rlimit(50)]
fn void_memfn_mut_pieces() -> (r: Vec<Piece>)
    ensures
        forall|e: Seq<(&str, String)>|
            #[trigger] fn_entries_ok(e) ==> well_formed(r@, e) && expand(r@, e)
                == entry_source(FnTemplate::VoidMemfnMut, e),
{
    let r = vec![
        Piece::Text("extern \"C\" void "),
        Piece::Raw("link_name"),
        Piece::Text("("),
        Piece::Raw("link_args"),
        Piece::Text(") noexcept {\n    void ("),
        Piece::Raw("cls_name"),
        Piece::Text("::*__func)("),
        Piece::Raw("decl_args"),
        Piece::Text(") = "),
        Piece::Raw("fn_name"),
        Piece::Text(";\n    (self.*__func)("),
        Piece::Raw("call_args"),
        Piece::Text(");\n}\n"),
    ];
    proof {
        reveal_strlit("(");
        reveal_strlit(") = ");
        reveal_strlit(") noexcept {\n    void (");
        reveal_strlit(");\n}\n");
        reveal_strlit("::*__func)(");
        reveal_strlit(";\n    (self.*__func)(");
        reveal_strlit("extern \"C\" void ");
        reveal_with_fuel(expand, 14);
        assert forall|e: Seq<(&str, String)>| #[trigger] fn_entries_ok(e) implies well_formed(r@, e)
            && expand(r@, e) == entry_source(FnTemplate::VoidMemfnMut, e) by {
            assert(expand(r@, e) =~= entry_source(FnTemplate::VoidMemfnMut, e));
        }
    }
    r
}

/// The template for a mutable member returning by value.
#[verifier::rlimit(50)]
fn atomic_memfn_mut_pieces() -> (r: Vec<Piece>)
    ensures
        forall|e: Seq<(&str, String)>|
            #[trigger] fn_entries_ok(e) ==> well_formed(r@, e) && expand(r@, e)
                == entry_source(FnTemplate::AtomicMemfnMut, e),
{
    let r = vec![
        Piece::Text("extern \"C\" "),
        Piece::Raw("ret_type"),
        Piece::Text(" "),
        Piece::Raw("link_name"),
        Piece::Text("("),
        Piece::Raw("link_args"),
        Piece::Text(") noexcept {\n    "),
        Piece::Raw("ret_type"),
        Piece::Text(" ("),
        Piece::Raw("cls_name"),
        Piece::Text("::*__func)("),
        Piece::Raw("decl_args"),
        Piece::Text(") = "),
        Piece::Raw("fn_name"),
        Piece::Text(";\n    return (self.*__func)("),
        Piece::Raw("call_args"),
        Piece::Text(");\n}\n"),
    ];
    proof {
        reveal_strlit(" ");
        reveal_strlit(" (");
        reveal_strlit("(");
        reveal_strlit(") = ");
        reveal_strlit(") noexcept {\n    ");
        reveal_strlit(");\n}\n");
        reveal_strlit("::*__func)(");
        reveal_strlit(";\n    return (self.*__func)(");
        reveal_strlit("extern \"C\" ");
        reveal_with_fuel(expand, 18);
        assert forall|e: Seq<(&str, String)>| #[trigger] fn_entries_ok(e) implies well_formed(r@, e)
            && expand(r@, e) == entry_source(FnTemplate::AtomicMemfnMut, e) by {
            assert(expand(r@, e) =~= entry_source(FnTemplate::AtomicMemfnMut, e));
        }
    }
    r
}

/// The template for a mutable member constructing its result in place.
#[verifier::rlimit(50)]
fn object_memfn_mut_pieces() -> (r: Vec<Piece>)
    ensures
        forall|e: Seq<(&str, String)>|
            #[trigger] fn_entries_ok(e) ==> well_formed(r@, e) && expand(r@, e)
                == entry_source(FnTemplate::ObjectMemfnMut, e),
{
    let r = vec![
        Piece::Text("extern \"C\" void "),
        Piece::Raw("link_name"),
        Piece::Text("("),
        Piece::Raw("link_args"),
        Piece::Text(") noexcept {\n    "),
        Piece::Raw("ret_type"),
        Piece::Text(" ("),
        Piece::Raw("cls_name"),
        Piece::Text("::*__func)("),
        Piece::Raw("decl_args"),
        Piece::Text(") = "),
        Piece::Raw("fn_name"),
        Piece::Text(";\n    new (__ret) "),
        Piece::Raw("ret_type"),
        Piece::Text("((self.*__func)("),
        Piece::Raw("call_args"),
        Piece::Text("));\n}\n"),
    ];
    proof {
        reveal_strlit(" (");
        reveal_strlit("(");
        reveal_strlit("((self.*__func)(");
        reveal_strlit(") = ");
        reveal_strlit(") noexcept {\n    ");
        reveal_strlit("));\n}\n");
        reveal_strlit("::*__func)(");
        reveal_strlit(";\n    new (__ret) ");
        reveal_strlit("extern \"C\" void ");
        reveal_with_fuel(expand, 18);
        assert forall|e: Seq<(&str, String)>| #[trigger] fn_entries_ok(e) implies well_formed(r@, e)
            && expand(r@, e) == entry_source(FnTemplate::ObjectMemfnMut, e) by {
            assert(expand(r@, e) =~= entry_source(FnTemplate::ObjectMemfnMut, e));
        }
    }
    r
}

/// The entries every trampoline template is rendered against.
fn fn_entries(
    link: String,
    params: String,
    decl: String,
    call: String,
    func: String,
    ret: String,
    cls: String,
) -> (r: Vec<(&'static str, String)>)
    ensures
        fn_entries_ok(r@),
        lookup(r@, "link_name"@) == link@,
        lookup(r@, "link_args"@) == params@,
        lookup(r@, "decl_args"@) == decl@,
        lookup(r@, "call_args"@) == call@,
        lookup(r@, "fn_name"@) == func@,
        lookup(r@, "ret_type"@) == ret@,
        lookup(r@, "cls_name"@) == cls@,
{
    let r = vec![
        ("link_name", link),
        ("link_args", params),
        ("decl_args", decl),
        ("call_args", call),
        ("fn_name", func),
        ("ret_type", ret),
        ("cls_name", cls),
    ];
    proof {
        reveal_strlit("link_name");
        reveal_strlit("link_args");
        reveal_strlit("decl_args");
        reveal_strlit("call_args");
        reveal_strlit("fn_name");
        reveal_strlit("ret_type");
        reveal_strlit("cls_name");
        reveal_with_fuel(lookup, 8);
        reveal_with_fuel(binds, 8);
        assert("link_name"@[0] != "decl_args"@[0] && "link_args"@[0] != "decl_args"@[0]);
        let e = r@;
        assert(e.drop_first()[0] == e[1]);
        assert(e.drop_first().drop_first()[0] == e[2]);
        assert(e.drop_first().drop_first().drop_first()[0] == e[3]);
        assert(e.drop_first().drop_first().drop_first().drop_first()[0] == e[4]);
        assert(e.drop_first().drop_first().drop_first().drop_first().drop_first()[0] == e[5]);
        assert(e.drop_first().drop_first().drop_first().drop_first().drop_first().drop_first()[0]
            == e[6]);
        assert forall|i: int, j: int| 0 <= i < j < e.len() implies #[trigger] e[i].0@
            != #[trigger] e[j].0@ by {
            if e[i].0@.len() == e[j].0@.len() {
                assert(e[i].0@[0] != e[j].0@[0] || e[i].0@[1] != e[j].0@[1] || e[i].0@[5]
                    != e[j].0@[5]);
            }
        }
        assert("link_name"@[4] == '_');
        assert("link_args"@[4] == '_');
        assert("decl_args"@[4] == '_');
        assert("call_args"@[4] == '_');
        assert("fn_name"@[2] == '_');
        assert("ret_type"@[3] == '_');
        assert("cls_name"@[3] == '_');
    }
    r
}

/// Native source of a trampoline for `fn_sig`, exported as `link_name`.
pub fn genc_fn(link_name: &str, fn_sig: FnSig) -> (r: String)
    requires
        fn_sig.cls is Some || !fn_sig.is_mut,
    ensures
        r@ == generated_fn(link_name@, fn_sig),
{
    let decl0 = decl_args(fn_sig.args);
    let call0 = call_args(fn_sig.args);
    let ret0 = match fn_sig.ret_type {
        ReturnType::Void => String::new(),
        ReturnType::Object(t) => String::from_str(t),
        ReturnType::Atomic(t) => String::from_str(t),
    };
    let (decl, call, func, ret, cls) = match fn_sig.cls {
        Some(c) => (
            replace_cls(decl0.as_str(), c),
            replace_cls(call0.as_str(), c),
            replace_cls(fn_sig.fn_name, c),
            replace_cls(ret0.as_str(), c),
            String::from_str(c),
        ),
        None => (decl0, call0, String::from_str(fn_sig.fn_name), ret0, String::new()),
    };
    proof {
        assert(decl@ == decl_text(fn_sig));
        assert(ret@ == ret_text(fn_sig));
    }
    let params = link_params_of(&fn_sig, &decl, &ret);
    let e = fn_entries(String::from_str(link_name), params, decl, call, func, ret, cls);
    let ps = match fn_sig.cls {
        None => match fn_sig.ret_type {
            ReturnType::Void => void_fn_pieces(),
            ReturnType::Atomic(_) => atomic_fn_pieces(),
            ReturnType::Object(_) => object_fn_pieces(),
        },
        Some(_) => if fn_sig.is_mut {
            match fn_sig.ret_type {
                ReturnType::Void => void_memfn_mut_pieces(),
                ReturnType::Atomic(_) => atomic_memfn_mut_pieces(),
                ReturnType::Object(_) => object_memfn_mut_pieces(),
            }
        } else {
            match fn_sig.ret_type {
                ReturnType::Void => void_memfn_pieces(),
                ReturnType::Atomic(_) => atomic_memfn_pieces(),
                ReturnType::Object(_) => object_memfn_pieces(),
            }
        },
    };
    proof {
        assert(fn_entries_ok(e@));
    }
    render(&ps, &e)
}

/// A free function returning nothing gets one function reference typed from the
/// declared arguments to `void`, called once with the forwarded arguments, and a
/// parameter list that is the declared arguments alone, with no output pointer.
pub proof fn law_free_void_trampoline(link: Seq<char>, sig: FnSig)
    requires
        sig.cls is None,
        sig.ret_type is Void,
    ensures
        link_params(sig) == decl_args_of(sig.args@),
        generated_fn(link, sig) == "extern \"C\" void "@ + link + "("@ + decl_args_of(
            sig.args@,
        ) + ") noexcept {\n    void (*__func)("@ + decl_args_of(sig.args@) + ") = "@
            + sig.fn_name@ + ";\n    __func("@ + call_args_of(sig.args@) + ");\n}\n"@,
{
    reveal_with_fuel(join, 2);
    if sig.args@.len() == 0 {
        assert(sig.args@.map_values(|a: (&str, &str)| decl_arg(a)) =~= Seq::<Seq<char>>::empty());
    }
}

/// With an Object return the parameter list ends with exactly one output pointer
/// of the return type. Whatever precedes it (receiver, arguments, both or neither)
/// is joined to it by one `", "`, and nothing precedes it when there is neither.
pub proof fn law_object_return_out_pointer(sig: FnSig)
    requires
        sig.ret_type is Object,
    ensures
        link_params(sig) == (if lead_params(sig).len() == 0 {
            out_param(sig)
        } else {
            join(lead_params(sig), ", "@) + ", "@ + out_param(sig)
        }),
        sig.cls is Some && sig.args@.len() == 0 ==> link_params(sig) == receiver_param(sig)
            + ", "@ + out_param(sig),
        sig.cls is None && sig.args@.len() == 0 ==> link_params(sig) == out_param(sig),
{
    let all = link_param_list(sig);
    assert(all.drop_last() =~= lead_params(sig));
    reveal_with_fuel(join, 2);
}

} // verus!
