//! YAML documents as plain data, and the outside call that writes them.
use crate::text;
use vstd::prelude::*;

verus! {

/// A document node.
#[derive(Debug, PartialEq, Eq)]
pub enum Doc {
    Bool(bool),
    Int(u32),
    Text(String),
    List(Vec<Doc>),
    /// The entries in order.
    Table(Vec<(String, Doc)>),
}

/// The model of a document node.
pub enum DocModel {
    Bool(bool),
    Int(u32),
    Text(Seq<char>),
    List(Seq<DocModel>),
    Table(Seq<(Seq<char>, DocModel)>),
}

impl View for Doc {
    type V = DocModel;

    open spec fn view(&self) -> DocModel
        decreases self,
    {
        match self {
            Doc::Bool(b) => DocModel::Bool(*b),
            Doc::Int(n) => DocModel::Int(*n),
            Doc::Text(s) => DocModel::Text(s@),
            Doc::List(v) => DocModel::List(
                Seq::new(
                    v@.len(),
                    |i: int|
                        if 0 <= i < v@.len() {
                            v@[i].view()
                        } else {
                            DocModel::Bool(false)
                        },
                ),
            ),
            Doc::Table(m) => DocModel::Table(
                Seq::new(
                    m@.len(),
                    |i: int|
                        if 0 <= i < m@.len() {
                            (m@[i].0@, m@[i].1.view())
                        } else {
                            (Seq::empty(), DocModel::Bool(false))
                        },
                ),
            ),
        }
    }
}

/// The models of the entries of a table.
pub open spec fn entries(m: Seq<(String, Doc)>) -> Seq<(Seq<char>, DocModel)> {
    Seq::new(m.len(), |i: int| (m[i].0@, m[i].1@))
}

/// The models of the items of a list.
pub open spec fn items(v: Seq<Doc>) -> Seq<DocModel> {
    Seq::new(v.len(), |i: int| v[i]@)
}

/// A list of texts.
pub open spec fn text_list(v: Seq<Seq<char>>) -> DocModel {
    DocModel::List(Seq::new(v.len(), |i: int| DocModel::Text(v[i])))
}

/// Append an entry to a table under construction.
pub fn put(table: &mut Vec<(String, Doc)>, key: &str, value: Doc)
    ensures
        entries(final(table)@) == entries(old(table)@).push((key@, value@)),
{
    table.push((key.to_owned(), value));
    assert(entries(table@) =~= entries(old(table)@).push((key@, value@)));
}

/// A boolean node.
pub fn flag(b: bool) -> (r: Doc)
    ensures
        r@ == DocModel::Bool(b),
{
    Doc::Bool(b)
}

/// An integer node.
pub fn count(n: u32) -> (r: Doc)
    ensures
        r@ == DocModel::Int(n),
{
    Doc::Int(n)
}

/// A text node that takes its text over.
pub fn owned_word(s: String) -> (r: Doc)
    ensures
        r@ == DocModel::Text(s@),
{
    Doc::Text(s)
}

/// A text node.
pub fn word(s: &str) -> (r: Doc)
    ensures
        r@ == DocModel::Text(s@),
{
    Doc::Text(s.to_owned())
}

/// A table of the given entries.
pub fn table(entry_list: Vec<(String, Doc)>) -> (r: Doc)
    ensures
        r@ == DocModel::Table(entries(entry_list@)),
{
    let r = Doc::Table(entry_list);
    proof {
        reveal_with_fuel(<Doc as View>::view, 2);
        assert(r@->Table_0 =~= entries(entry_list@));
    }
    r
}

/// A list of the given nodes.
pub fn list(nodes: Vec<Doc>) -> (r: Doc)
    ensures
        r@ == DocModel::List(items(nodes@)),
{
    let r = Doc::List(nodes);
    proof {
        reveal_with_fuel(<Doc as View>::view, 2);
        assert(r@->List_0 =~= items(nodes@));
    }
    r
}

/// A list of the given texts.
pub fn word_list(words: &[String]) -> (r: Doc)
    ensures
        r@ == text_list(text::views(words@)),
{
    let mut nodes: Vec<Doc> = Vec::new();
    let ghost want = text_list(text::views(words@))->List_0;
    let mut i: usize = 0;
    assert(items(nodes@) =~= want.take(0));
    while i < words.len()
        invariant
            i <= words@.len(),
            want == text_list(text::views(words@))->List_0,
            items(nodes@) == want.take(i as int),
        decreases words@.len() - i,
    {
        let ghost before = nodes@;
        nodes.push(word(words[i].as_str()));
        i += 1;
        assert(items(nodes@) =~= items(before).push(want[i - 1]));
        assert(want.take(i as int) =~= want.take(i - 1).push(want[i - 1]));
    }
    assert(want.take(words@.len() as int) =~= want);
    list(nodes)
}

// ---------------------------------------------------------------------------
// text form
// ---------------------------------------------------------------------------

/// `serde_norway::Value`, carried from one outside call to the next.
#[verifier::external_type_specification]
#[verifier::external_body]
pub struct ExValue(serde_norway::Value);

/// The `serde_norway::Value` of a document.
pub uninterp spec fn outside_form(d: DocModel) -> serde_norway::Value;

/// What `serde_norway::to_string` writes for a value, unless it refuses it.
pub uninterp spec fn yaml_written(v: serde_norway::Value) -> Option<Seq<char>>;

/// Moves a document into a `serde_norway::Value`, node by node and entry by
/// entry, in order.
#[verifier::external_body]
fn to_outside(d: &Doc) -> (r: serde_norway::Value)
    ensures
        r == outside_form(d@),
{
    match d {
        Doc::Bool(b) => serde_norway::Value::from(*b),
        Doc::Int(n) => serde_norway::Value::from(*n),
        Doc::Text(s) => serde_norway::Value::from(s.as_str()),
        Doc::List(v) => serde_norway::Value::Sequence(v.iter().map(to_outside).collect()),
        Doc::Table(m) => serde_norway::Value::Mapping(
            m.iter().map(|(k, v)| (serde_norway::Value::from(k.as_str()), to_outside(v))).collect(),
        ),
    }
}

/// Calls `serde_norway::to_string` on a value. The text is a function of the
/// value; how it is laid out is left to that crate.
#[verifier::external_body]
fn write_value(v: &serde_norway::Value) -> (r: Option<String>)
    ensures
        text::opt_view(r) == yaml_written(*v),
{
    serde_norway::to_string(v).ok()
}

/// Write a document as YAML, or `None` when the writer refuses it.
pub fn render(d: &Doc) -> (r: Option<String>)
    ensures
        text::opt_view(r) == yaml_written(outside_form(d@)),
{
    let v = to_outside(d);
    write_value(&v)
}

/// The model of a document is what its nodes hold, in their order.
pub proof fn law_documents_are_what_they_hold(
    b: bool,
    n: u32,
    s: String,
    v: Vec<Doc>,
    m: Vec<(String, Doc)>,
    i: int,
)
    ensures
        Doc::Bool(b)@ == DocModel::Bool(b),
        Doc::Int(n)@ == DocModel::Int(n),
        Doc::Text(s)@ == DocModel::Text(s@),
        Doc::List(v)@ is List && Doc::List(v)@->List_0.len() == v@.len(),
        0 <= i < v@.len() ==> Doc::List(v)@->List_0[i] == v@[i]@,
        Doc::Table(m)@ is Table && Doc::Table(m)@->Table_0.len() == m@.len(),
        0 <= i < m@.len() ==> Doc::Table(m)@->Table_0[i] == (m@[i].0@, m@[i].1@),
{
    reveal_with_fuel(<Doc as View>::view, 2);
    let l = Doc::List(v);
    let t = Doc::Table(m);
    assert(l@->List_0 =~= items(v@));
    assert(t@->Table_0 =~= entries(m@));
    if 0 <= i < v@.len() {
        assert(items(v@)[i] == v@[i]@);
    }
    if 0 <= i < m@.len() {
        assert(entries(m@)[i] == (m@[i].0@, m@[i].1@));
    }
}

/// Entries, items and lists of texts are modelled one for one.
pub proof fn law_lists_are_modelled_one_for_one(
    m: Seq<(String, Doc)>,
    v: Seq<Doc>,
    t: Seq<Seq<char>>,
    i: int,
)
    ensures
        entries(m).len() == m.len(),
        0 <= i < m.len() ==> entries(m)[i] == (m[i].0@, m[i].1@),
        items(v).len() == v.len(),
        0 <= i < v.len() ==> items(v)[i] == v[i]@,
        text_list(t) is List && text_list(t)->List_0.len() == t.len(),
        0 <= i < t.len() ==> text_list(t)->List_0[i] == DocModel::Text(t[i]),
{
}

} // verus!
