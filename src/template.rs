use vstd::prelude::*;
use vstd::string::StringExecFns;

verus! {

/// One piece of a source template.
pub enum Piece {
    /// Text copied as it stands.
    Text(&'static str),
    /// A `{{{key}}}` tag: the key's value as it stands.
    Raw(&'static str),
}

/// The template text of one piece.
pub open spec fn piece_source(p: Piece) -> Seq<char> {
    match p {
        Piece::Text(t) => t@,
        Piece::Raw(k) => "{{{"@ + k@ + "}}}"@,
    }
}

/// The template text of a sequence of pieces.
pub open spec fn template_source(ps: Seq<Piece>) -> Seq<char>
    decreases ps.len(),
{
    if ps.len() == 0 {
        Seq::empty()
    } else {
        template_source(ps.drop_last()) + piece_source(ps.last())
    }
}

/// Text that the template language reads back as plain text: no backslash, no
/// `{{`, and no brace at either end, so that it cannot merge with a tag beside it.
pub open spec fn plain_text(t: Seq<char>) -> bool {
    &&& forall|i: int| 0 <= i < t.len() ==> t[i] != '\\'
    &&& forall|i: int| 0 <= i < t.len() - 1 ==> !(#[trigger] t[i] == '{' && t[i + 1] == '{')
    &&& t.len() > 0 ==> t[0] != '{' && t[0] != '}'
    &&& t.len() > 0 ==> t.last() != '{' && t.last() != '}'
}

/// A key that names a plain value: lower-case letters and underscores, with at
/// least one underscore, so that it is neither a helper nor a keyword.
pub open spec fn plain_key(k: Seq<char>) -> bool {
    &&& forall|i: int| 0 <= i < k.len() ==> ('a' <= #[trigger] k[i] <= 'z' || k[i] == '_')
    &&& k.contains('_')
}

/// Whether `k` is bound in `entries`.
pub open spec fn binds(entries: Seq<(&str, String)>, k: Seq<char>) -> bool
    decreases entries.len(),
{
    if entries.len() == 0 {
        false
    } else {
        entries[0].0@ == k || binds(entries.drop_first(), k)
    }
}

/// The value bound to `k` in `entries` (the first binding).
pub open spec fn lookup(entries: Seq<(&str, String)>, k: Seq<char>) -> Seq<char>
    decreases entries.len(),
{
    if entries.len() == 0 {
        Seq::empty()
    } else if entries[0].0@ == k {
        entries[0].1@
    } else {
        lookup(entries.drop_first(), k)
    }
}

/// No key is bound twice.
pub open spec fn distinct_keys(entries: Seq<(&str, String)>) -> bool {
    forall|i: int, j: int|
        0 <= i < j < entries.len() ==> #[trigger] entries[i].0@ != #[trigger] entries[j].0@
}

/// A template that renders by plain substitution against `entries`.
pub open spec fn well_formed(ps: Seq<Piece>, entries: Seq<(&str, String)>) -> bool {
    &&& distinct_keys(entries)
    &&& forall|i: int|
        0 <= i < ps.len() ==> match #[trigger] ps[i] {
            Piece::Text(t) => plain_text(t@),
            Piece::Raw(k) => plain_key(k@) && binds(entries, k@),
        }
}

/// What one piece renders to.
pub open spec fn piece_output(p: Piece, entries: Seq<(&str, String)>) -> Seq<char> {
    match p {
        Piece::Text(t) => t@,
        Piece::Raw(k) => lookup(entries, k@),
    }
}

/// What a sequence of pieces renders to.
pub open spec fn expand(ps: Seq<Piece>, entries: Seq<(&str, String)>) -> Seq<char>
    decreases ps.len(),
{
    if ps.len() == 0 {
        Seq::empty()
    } else {
        expand(ps.drop_last(), entries) + piece_output(ps.last(), entries)
    }
}

/// Relies on handlebars::Handlebars::render_template (default registry): a template
/// whose text holds no tag and whose tags are all `{{{key}}}`, on keys bound once in
/// the data, renders as the text with each tag replaced by the key's string value,
/// unescaped.
#[verifier::external_body]
fn render_template(source: &str, entries: &Vec<(&str, String)>) -> (r: Option<String>)
    ensures
        forall|ps: Seq<Piece>|
            #[trigger] template_source(ps) == source@ && well_formed(ps, entries@) ==> r is Some
                && r->0@ == expand(ps, entries@),
{
    let data: serde_json::Map<String, serde_json::Value> = entries.iter().map(
        |(k, v)| (k.to_string(), serde_json::Value::String(v.clone())),
    ).collect();
    handlebars::Handlebars::new().render_template(source, &data).ok()
}

/// The template text of `ps`.
pub fn source_text(ps: &Vec<Piece>) -> (r: String)
    ensures
        r@ == template_source(ps@),
{
    let mut out = String::new();
    let mut i: usize = 0;
    while i < ps.len()
        invariant
            i <= ps@.len(),
            out@ == template_source(ps@.subrange(0, i as int)),
        decreases ps.len() - i,
    {
        let ghost before = out@;
        match ps[i] {
            Piece::Text(t) => {
                out.append(t);
            },
            Piece::Raw(k) => {
                out.append("{{{");
                out.append(k);
                out.append("}}}");
            },
        }
        proof {
            let next = ps@.subrange(0, i + 1);
            assert(next.drop_last() =~= ps@.subrange(0, i as int));
            assert(out@ =~= before + piece_source(ps@[i as int]));
        }
        i = i + 1;
    }
    proof {
        assert(ps@.subrange(0, ps@.len() as int) =~= ps@);
    }
    out
}

/// Renders a well-formed template against `entries`.
pub fn render(ps: &Vec<Piece>, entries: &Vec<(&str, String)>) -> (r: String)
    requires
        well_formed(ps@, entries@),
    ensures
        r@ == expand(ps@, entries@),
{
    let source = source_text(ps);
    let out = render_template(source.as_str(), entries);
    proof {
        assert(template_source(ps@) == source@);
    }
    out.unwrap()
}

/// Rendering distributes over concatenation.
pub proof fn lemma_expand_append(a: Seq<Piece>, b: Seq<Piece>, entries: Seq<(&str, String)>)
    ensures
        expand(a + b, entries) == expand(a, entries) + expand(b, entries),
    decreases b.len(),
{
    if b.len() == 0 {
        assert(a + b =~= a);
        assert(expand(a, entries) + Seq::<char>::empty() =~= expand(a, entries));
    } else {
        lemma_expand_append(a, b.drop_last(), entries);
        assert((a + b).drop_last() =~= a + b.drop_last());
        assert((a + b).last() == b.last());
        assert(expand(a, entries) + expand(b.drop_last(), entries) + piece_output(
            b.last(),
            entries,
        ) =~= expand(a, entries) + (expand(b.drop_last(), entries) + piece_output(
            b.last(),
            entries,
        )));
    }
}

/// Two well-formed templates make a well-formed template.
pub proof fn lemma_well_formed_append(
    a: Seq<Piece>,
    b: Seq<Piece>,
    entries: Seq<(&str, String)>,
)
    requires
        well_formed(a, entries),
        well_formed(b, entries),
    ensures
        well_formed(a + b, entries),
{
    assert forall|i: int| 0 <= i < (a + b).len() implies match #[trigger] (a + b)[i] {
        Piece::Text(t) => plain_text(t@),
        Piece::Raw(k) => plain_key(k@) && binds(entries, k@),
    } by {
        if i < a.len() {
            assert((a + b)[i] == a[i]);
        } else {
            assert((a + b)[i] == b[i - a.len()]);
        }
    }
}

/// `a` followed by `b`: still well formed, and rendering to `a`'s output
/// followed by `b`'s.
pub(crate) fn concat_pieces(
    a: Vec<Piece>,
    b: Vec<Piece>,
    Ghost(entries): Ghost<Seq<(&str, String)>>,
) -> (r: Vec<Piece>)
    requires
        well_formed(a@, entries),
        well_formed(b@, entries),
    ensures
        r@ == a@ + b@,
        well_formed(r@, entries),
        expand(r@, entries) == expand(a@, entries) + expand(b@, entries),
{
    proof {
        lemma_expand_append(a@, b@, entries);
        lemma_well_formed_append(a@, b@, entries);
    }
    let mut a = a;
    let mut b = b;
    a.append(&mut b);
    a
}

} // verus!
