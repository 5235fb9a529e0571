use vstd::prelude::*;
use vstd::string::StringExecFns;
use vstd::string::StrSliceExecFns;

verus! {

/// How a native operation hands back its result.
pub enum ReturnType<'a> {
    /// Nothing is returned.
    Void,
    /// A value constructed in place through a trailing output pointer.
    Object(&'a str),
    /// A value returned directly by value (integers, references as pointers).
    Atomic(&'a str),
}

impl<'a> ReturnType<'a> {
    pub fn is_none(&self) -> (r: bool)
        ensures
            r == (*self is Void),
    {
        match self {
            ReturnType::Void => true,
            _ => false,
        }
    }

    pub fn is_object(&self) -> (r: bool)
        ensures
            r == (*self is Object),
    {
        match self {
            ReturnType::Object(_) => true,
            _ => false,
        }
    }

    pub fn is_atomic(&self) -> (r: bool)
        ensures
            r == (*self is Atomic),
    {
        match self {
            ReturnType::Atomic(_) => true,
            _ => false,
        }
    }
}

impl<'a> Default for ReturnType<'a> {
    fn default() -> (r: Self)
        ensures
            r is Void,
    {
        ReturnType::Void
    }
}

/// Declarative shape of one native operation.
pub struct FnSig<'a> {
    /// Receiver class, for a member function.
    pub cls: Option<&'a str>,
    /// Whether the receiver is taken mutably; meaningful only with a receiver.
    pub is_mut: bool,
    /// The native callable, written as native source. In a member signature
    /// every `$C` stands for the receiver class.
    pub fn_name: &'a str,
    pub ret_type: ReturnType<'a>,
    /// Ordered `(type, name)` pairs.
    pub args: &'a [(&'a str, &'a str)],
}

impl<'a> Default for FnSig<'a> {
    fn default() -> (r: Self)
        ensures
            r.cls is None,
            !r.is_mut,
            r.fn_name@.len() == 0,
            r.ret_type is Void,
            r.args@.len() == 0,
    {
        proof {
            reveal_strlit("");
        }
        FnSig { cls: None, is_mut: false, fn_name: "", ret_type: ReturnType::Void, args: &[] }
    }
}

/// `parts` separated by `sep`; empty when there are no parts.
pub open spec fn join(parts: Seq<Seq<char>>, sep: Seq<char>) -> Seq<char>
    decreases parts.len(),
{
    if parts.len() == 0 {
        Seq::empty()
    } else if parts.len() == 1 {
        parts[0]
    } else {
        join(parts.drop_last(), sep) + sep + parts.last()
    }
}

/// One declared parameter: its type, a space, its name.
pub open spec fn decl_arg(a: (&str, &str)) -> Seq<char> {
    a.0@ + " "@ + a.1@
}

/// The parameters as declared, `"T0 n0, T1 n1"`.
pub open spec fn decl_args_of(args: Seq<(&str, &str)>) -> Seq<char> {
    join(args.map_values(|a: (&str, &str)| decl_arg(a)), ", "@)
}

/// The parameter names as passed on, `"n0, n1"`.
pub open spec fn call_args_of(args: Seq<(&str, &str)>) -> Seq<char> {
    join(args.map_values(|a: (&str, &str)| a.1@), ", "@)
}

/// Every `$C` in `s`, read from the left, replaced by `cls`.
pub open spec fn subst_cls(s: Seq<char>, cls: Seq<char>) -> Seq<char>
    decreases s.len(),
{
    if s.len() == 0 {
        s
    } else if s.len() >= 2 && s[0] == '$' && s[1] == 'C' {
        cls + subst_cls(s.subrange(2, s.len() as int), cls)
    } else {
        seq![s[0]] + subst_cls(s.subrange(1, s.len() as int), cls)
    }
}

proof fn lemma_join_step(parts: Seq<Seq<char>>, sep: Seq<char>, i: int)
    requires
        0 < i < parts.len(),
    ensures
        join(parts.subrange(0, i + 1), sep) == join(parts.subrange(0, i), sep) + sep + parts[i],
{
    let p = parts.subrange(0, i + 1);
    assert(p.drop_last() =~= parts.subrange(0, i));
}

/// The arguments joined by `", "`: each as `type name` when `with_type`, else
/// by name alone.
fn join_args(args: &[(&str, &str)], with_type: bool) -> (r: String)
    ensures
        with_type ==> r@ == decl_args_of(args@),
        !with_type ==> r@ == call_args_of(args@),
{
    let ghost parts = if with_type {
        args@.map_values(|a: (&str, &str)| decl_arg(a))
    } else {
        args@.map_values(|a: (&str, &str)| a.1@)
    };
    let mut out = String::new();
    let mut i: usize = 0;
    proof {
        reveal_strlit(", ");
        reveal_strlit(" ");
        assert(parts.subrange(0, 0) =~= Seq::<Seq<char>>::empty());
    }
    while i < args.len()
        invariant
            i <= args@.len(),
            parts.len() == args@.len(),
            forall|k: int| 0 <= k < args@.len() ==> #[trigger] parts[k] == (if with_type {
                decl_arg(args@[k])
            } else {
                args@[k].1@
            }),
            out@ == join(parts.subrange(0, i as int), ", "@),
        decreases args.len() - i,
    {
        let (tp, name) = args[i];
        if i > 0 {
            out.append(", ");
        }
        if with_type {
            out.append(tp);
            out.append(" ");
        }
        out.append(name);
        proof {
            if i == 0 {
                let p = parts.subrange(0, 1);
                assert(p.len() == 1);
                assert(p[0] == parts[0]);
            } else {
                lemma_join_step(parts, ", "@, i as int);
            }
        }
        i = i + 1;
    }
    proof {
        assert(parts.subrange(0, args@.len() as int) =~= parts);
    }
    out
}

/// The declared parameter list of `args`.
pub fn decl_args(args: &[(&str, &str)]) -> (r: String)
    ensures
        r@ == decl_args_of(args@),
{
    join_args(args, true)
}

/// The argument list that passes `args` on by name.
pub fn call_args(args: &[(&str, &str)]) -> (r: String)
    ensures
        r@ == call_args_of(args@),
{
    join_args(args, false)
}

/// `s` with every `$C` replaced by the receiver class `cls`.
pub fn replace_cls(s: &str, cls: &str) -> (r: String)
    ensures
        r@ == subst_cls(s@, cls@),
{
    let n = s.unicode_len();
    let mut out = String::new();
    let mut i: usize = 0;
    proof {
        assert(s@.subrange(0, n as int) =~= s@);
    }
    while i < n
        invariant
            i <= n,
            n == s@.len(),
            subst_cls(s@, cls@) == out@ + subst_cls(s@.subrange(i as int, n as int), cls@),
        decreases n - i,
    {
        let ghost rest = s@.subrange(i as int, n as int);
        let ghost out0 = out@;
        if i + 1 < n && s.get_char(i) == '$' && s.get_char(i + 1) == 'C' {
            out.append(cls);
            proof {
                assert(rest.subrange(2, rest.len() as int) =~= s@.subrange(i + 2, n as int));
                assert(subst_cls(rest, cls@) == cls@ + subst_cls(
                    s@.subrange(i + 2, n as int),
                    cls@,
                ));
                assert(out0 + (cls@ + subst_cls(s@.subrange(i + 2, n as int), cls@)) =~= out@
                    + subst_cls(s@.subrange(i + 2, n as int), cls@));
            }
            i = i + 2;
        } else {
            let one = s.substring_char(i, i + 1);
            out.append(one);
            proof {
                assert(rest.subrange(1, rest.len() as int) =~= s@.subrange(i + 1, n as int));
                assert(one@ =~= seq![rest[0]]);
                assert(subst_cls(rest, cls@) == seq![rest[0]] + subst_cls(
                    s@.subrange(i + 1, n as int),
                    cls@,
                ));
                assert(out0 + (seq![rest[0]] + subst_cls(s@.subrange(i + 1, n as int), cls@))
                    =~= out@ + subst_cls(s@.subrange(i + 1, n as int), cls@));
            }
            i = i + 1;
        }
    }
    proof {
        assert(s@.subrange(n as int, n as int) =~= Seq::<char>::empty());
        assert(out@ + Seq::<char>::empty() =~= out@);
    }
    out
}

/// `s`, with `$C` replaced by the receiver class where there is one.
pub open spec fn in_cls(s: Seq<char>, cls: Option<&str>) -> Seq<char> {
    match cls {
        Some(c) => subst_cls(s, c@),
        None => s,
    }
}

/// The declared arguments as they appear in generated source.
pub open spec fn decl_text(sig: FnSig) -> Seq<char> {
    in_cls(decl_args_of(sig.args@), sig.cls)
}

/// The forwarded arguments as they appear in generated source.
pub open spec fn call_text(sig: FnSig) -> Seq<char> {
    in_cls(call_args_of(sig.args@), sig.cls)
}

/// The callable as it appears in generated source.
pub open spec fn fn_text(sig: FnSig) -> Seq<char> {
    in_cls(sig.fn_name@, sig.cls)
}

/// The return type as it appears in generated source; empty when nothing is returned.
pub open spec fn ret_text(sig: FnSig) -> Seq<char> {
    match sig.ret_type {
        ReturnType::Void => Seq::empty(),
        ReturnType::Object(t) => in_cls(t@, sig.cls),
        ReturnType::Atomic(t) => in_cls(t@, sig.cls),
    }
}

/// The receiver class; empty for a free function.
pub open spec fn cls_text(sig: FnSig) -> Seq<char> {
    match sig.cls {
        Some(c) => c@,
        None => Seq::empty(),
    }
}

/// The by-reference receiver parameter of a member signature.
pub open spec fn receiver_param(sig: FnSig) -> Seq<char> {
    if sig.is_mut {
        cls_text(sig) + " &self"@
    } else {
        cls_text(sig) + " const &self"@
    }
}

/// The trailing output pointer of an Object return.
pub open spec fn out_param(sig: FnSig) -> Seq<char> {
    ret_text(sig) + " *__ret"@
}

/// The parameters before any output pointer: the receiver, then the declared
/// arguments, each only where present.
pub open spec fn lead_params(sig: FnSig) -> Seq<Seq<char>> {
    let r: Seq<Seq<char>> = if sig.cls is Some {
        seq![receiver_param(sig)]
    } else {
        seq![]
    };
    if sig.args@.len() > 0 {
        r.push(decl_text(sig))
    } else {
        r
    }
}

/// Every parameter of the externally callable trampoline, in order.
pub open spec fn link_param_list(sig: FnSig) -> Seq<Seq<char>> {
    if sig.ret_type is Object {
        lead_params(sig).push(out_param(sig))
    } else {
        lead_params(sig)
    }
}

/// The externally callable parameter list, separated by `", "`.
pub open spec fn link_params(sig: FnSig) -> Seq<char> {
    join(link_param_list(sig), ", "@)
}

/// Builds the externally callable parameter list from the substituted argument
/// list `decl` and return type `ret`.
pub fn link_params_of(sig: &FnSig, decl: &String, ret: &String) -> (r: String)
    requires
        decl@ == decl_text(*sig),
        ret@ == ret_text(*sig),
    ensures
        r@ == link_params(*sig),
{
    let ghost lead: Seq<Seq<char>> = if sig.cls is Some {
        seq![receiver_param(*sig)]
    } else {
        seq![]
    };
    let mut out = String::new();
    let mut any = false;
    proof {
        reveal_strlit(", ");
        reveal_with_fuel(join, 4);
        assert(lead.len() == 0 ==> out@ == join(lead, ", "@));
    }
    match sig.cls {
        Some(c) => {
            out.append(c);
            if sig.is_mut {
                out.append(" &self");
            } else {
                out.append(" const &self");
            }
            any = true;
            proof {
                assert(out@ == join(lead, ", "@));
            }
        },
        None => {},
    }
    let ghost lead1 = lead;
    let ghost lead2 = if sig.args@.len() > 0 {
        lead.push(decl_text(*sig))
    } else {
        lead
    };
    if sig.args.len() > 0 {
        if any {
            out.append(", ");
        }
        out.append(decl.as_str());
        any = true;
        proof {
            assert(lead2.drop_last() =~= lead1);
        }
    }
    proof {
        assert(lead2 == lead_params(*sig));
        assert(out@ == join(lead2, ", "@));
        assert(any == (lead2.len() > 0));
    }
    if sig.ret_type.is_object() {
        if any {
            out.append(", ");
        }
        out.append(ret.as_str());
        out.append(" *__ret");
        proof {
            let all = lead2.push(out_param(*sig));
            assert(all.drop_last() =~= lead2);
            assert(out@ =~= join(all, ", "@));
        }
    }
    out
}

} // verus!
