//! The query descriptor (a tree of selected fields), its GraphQL text, and
//! the JSON request body that carries it.
use vstd::prelude::*;
use vstd::string::*;

verus! {

broadcast use vstd::std_specs::vec::group_vec_axioms, vstd::seq::group_seq_axioms;

/// One selected field, with the fields selected below it.
pub struct Selection {
    pub name: String,
    pub fields: Vec<Selection>,
}

/// A named query operation and its top-level selections.
pub struct QueryDescriptor {
    pub operation: String,
    pub fields: Vec<Selection>,
}

/// The text of one selection: its name, then its sub-selections in braces.
pub open spec fn selection_text(s: Selection) -> Seq<char>
    decreases s,
{
    if s.fields@.len() == 0 {
        s.name@
    } else {
        s.name@ + " {"@ + selections_text(s.fields@) + " }"@
    }
}

/// The texts of a list of selections, each after a space.
pub open spec fn selections_text(fs: Seq<Selection>) -> Seq<char>
    decreases fs,
{
    if fs.len() == 0 {
        Seq::empty()
    } else {
        selections_text(fs.drop_last()) + " "@ + selection_text(fs.last())
    }
}

/// The GraphQL document of a descriptor.
pub open spec fn query_text(d: QueryDescriptor) -> Seq<char> {
    "query "@ + d.operation@ + " {"@ + selections_text(d.fields@) + " }"@
}

/// The request body: a JSON object with the document under `query` and no
/// variables.
pub open spec fn request_body_of(d: QueryDescriptor) -> Seq<char> {
    "{\"query\":\""@ + query_text(d) + "\",\"variables\":{}}"@
}

fn push_selection(s: &Selection, out: &mut String)
    ensures
        final(out)@ == old(out)@ + selection_text(*s),
    decreases s,
{
    out.append(s.name.as_str());
    if s.fields.len() > 0 {
        out.append(" {");
        push_selections(&s.fields, out);
        out.append(" }");
    }
}

fn push_selections(fs: &Vec<Selection>, out: &mut String)
    ensures
        final(out)@ == old(out)@ + selections_text(fs@),
    decreases fs,
{
    let ghost start = out@;
    let mut i: usize = 0;
    while i < fs.len()
        invariant
            i <= fs.len(),
            out@ == start + selections_text(fs@.take(i as int)),
        decreases fs.len() - i,
    {
        proof {
            assert(fs@.take(i + 1).drop_last() =~= fs@.take(i as int));
        }
        out.append(" ");
        push_selection(&fs[i], out);
        i = i + 1;
    }
    proof {
        assert(fs@.take(fs.len() as int) =~= fs@);
    }
}

/// The GraphQL document of a descriptor.
pub fn query_document(d: &QueryDescriptor) -> (r: String)
    ensures
        r@ == query_text(*d),
{
    let mut out = String::from_str("query ");
    out.append(d.operation.as_str());
    out.append(" {");
    push_selections(&d.fields, &mut out);
    out.append(" }");
    out
}

/// The JSON body to post for a descriptor.
pub fn request_body(d: &QueryDescriptor) -> (r: String)
    ensures
        r@ == request_body_of(*d),
{
    let mut out = String::from_str("{\"query\":\"");
    let q = query_document(d);
    out.append(q.as_str());
    out.append("\",\"variables\":{}}");
    out
}

/// A GraphQL name: a letter or `_`, then letters, digits and `_`.
pub open spec fn valid_name(n: Seq<char>) -> bool {
    &&& n.len() > 0
    &&& forall|i: int|
        0 <= i < n.len() ==> (('a' <= #[trigger] n[i] && n[i] <= 'z') || ('A' <= n[i] && n[i] <= 'Z')
            || n[i] == '_' || (i > 0 && '0' <= n[i] && n[i] <= '9'))
}

/// Every name in the selection tree is a GraphQL name.
pub open spec fn valid_selection(s: Selection) -> bool
    decreases s,
{
    valid_name(s.name@) && valid_selections(s.fields@)
}

/// Every name in each of the trees is a GraphQL name.
pub open spec fn valid_selections(fs: Seq<Selection>) -> bool
    decreases fs,
{
    fs.len() == 0 || (valid_selections(fs.drop_last()) && valid_selection(fs.last()))
}

/// A descriptor whose operation and field names are all GraphQL names.
pub open spec fn valid_descriptor(d: QueryDescriptor) -> bool {
    valid_name(d.operation@) && valid_selections(d.fields@)
}

/// Position of the first `"` in `t`.
pub open spec fn first_quote(t: Seq<char>) -> Option<int>
    decreases t.len(),
{
    if t.len() == 0 {
        None
    } else if t[0] == '"' {
        Some(0)
    } else {
        match first_quote(t.drop_first()) {
            Some(k) => Some(k + 1),
            None => None,
        }
    }
}

/// Reads a request body back into its document and its variables text.
pub open spec fn parse_request_body(b: Seq<char>) -> Option<(Seq<char>, Seq<char>)> {
    let head = "{\"query\":\""@;
    let mid = ",\"variables\":"@;
    if b.len() >= head.len() && b.take(head.len() as int) == head {
        let rest = b.skip(head.len() as int);
        match first_quote(rest) {
            Some(k) => {
                let after = rest.skip(k + 1);
                if after.len() > mid.len() && after.take(mid.len() as int) == mid && after.last()
                    == '}' {
                    Some((rest.take(k), after.subrange(mid.len() as int, after.len() - 1)))
                } else {
                    None
                }
            },
            None => None,
        }
    } else {
        None
    }
}

/// `t` holds no `"`.
pub open spec fn no_quote(t: Seq<char>) -> bool {
    forall|i: int| 0 <= i < t.len() ==> #[trigger] t[i] != '"'
}

proof fn lemma_selection_no_quote(s: Selection)
    requires
        valid_selection(s),
    ensures
        no_quote(selection_text(s)),
    decreases s,
{
    if s.fields@.len() > 0 {
        lemma_selections_no_quote(s.fields@);
        reveal_strlit(" {");
        reveal_strlit(" }");
        let t = selection_text(s);
        assert forall|i: int| 0 <= i < t.len() implies #[trigger] t[i] != '"' by {
            let a = s.name@;
            let b = " {"@;
            let c = selections_text(s.fields@);
            if i < a.len() {
                assert(t[i] == a[i]);
            } else if i < a.len() + b.len() {
                assert(t[i] == b[i - a.len()]);
            } else if i < a.len() + b.len() + c.len() {
                assert(t[i] == c[i - a.len() - b.len()]);
            } else {
                assert(t[i] == " }"@[i - a.len() - b.len() - c.len()]);
            }
        }
    } else {
        assert(forall|i: int| 0 <= i < s.name@.len() ==> s.name@[i] != '"');
    }
}

proof fn lemma_selections_no_quote(fs: Seq<Selection>)
    requires
        valid_selections(fs),
    ensures
        no_quote(selections_text(fs)),
    decreases fs,
{
    if fs.len() > 0 {
        lemma_selections_no_quote(fs.drop_last());
        lemma_selection_no_quote(fs.last());
        reveal_strlit(" ");
        let t = selections_text(fs);
        let a = selections_text(fs.drop_last());
        let c = selection_text(fs.last());
        assert forall|i: int| 0 <= i < t.len() implies #[trigger] t[i] != '"' by {
            if i < a.len() {
                assert(t[i] == a[i]);
            } else if i < a.len() + 1 {
                assert(t[i] == ' ');
            } else {
                assert(t[i] == c[i - a.len() - 1]);
            }
        }
    }
}

proof fn lemma_first_quote(t: Seq<char>, u: Seq<char>)
    requires
        no_quote(t),
        u.len() > 0,
        u[0] == '"',
    ensures
        first_quote(t + u) == Some(t.len() as int),
    decreases t.len(),
{
    if t.len() == 0 {
        assert(t + u =~= u);
    } else {
        assert((t + u).drop_first() =~= t.drop_first() + u);
        lemma_first_quote(t.drop_first(), u);
    }
}

/// Reading a request body back gives the descriptor's document and empty
/// variables, for every descriptor whose names are GraphQL names.
pub proof fn lemma_request_body_round_trip(d: QueryDescriptor)
    requires
        valid_descriptor(d),
    ensures
        parse_request_body(request_body_of(d)) == Some((query_text(d), "{}"@)),
{
    let head = "{\"query\":\""@;
    let mid = ",\"variables\":"@;
    let tail = "\",\"variables\":{}}"@;
    reveal_strlit("{\"query\":\"");
    reveal_strlit(",\"variables\":");
    reveal_strlit("\",\"variables\":{}}");
    reveal_strlit("{}");
    reveal_strlit("query ");
    reveal_strlit(" {");
    reveal_strlit(" }");
    let q = query_text(d);
    lemma_selections_no_quote(d.fields@);
    assert(no_quote(q)) by {
        let a = "query "@;
        let o = d.operation@;
        let b = " {"@;
        let c = selections_text(d.fields@);
        assert forall|i: int| 0 <= i < q.len() implies #[trigger] q[i] != '"' by {
            if i < a.len() {
                assert(q[i] == a[i]);
            } else if i < a.len() + o.len() {
                assert(q[i] == o[i - a.len()]);
            } else if i < a.len() + o.len() + b.len() {
                assert(q[i] == b[i - a.len() - o.len()]);
            } else if i < a.len() + o.len() + b.len() + c.len() {
                assert(q[i] == c[i - a.len() - o.len() - b.len()]);
            } else {
                assert(q[i] == " }"@[i - a.len() - o.len() - b.len() - c.len()]);
            }
        }
    }
    let body = request_body_of(d);
    assert(body =~= head + q + tail);
    assert(body.take(head.len() as int) =~= head);
    let rest = body.skip(head.len() as int);
    assert(rest =~= q + tail);
    lemma_first_quote(q, tail);
    let after = rest.skip(q.len() as int + 1);
    reveal_strlit("}");
    assert(after =~= tail.skip(1));
    assert(tail.skip(1) =~= mid + "{}"@ + "}"@);
    assert(after.take(mid.len() as int) =~= mid);
    assert(rest.take(q.len() as int) =~= q);
    assert(after.subrange(mid.len() as int, after.len() - 1) =~= "{}"@);
}

fn leaf(name: &str) -> (r: Selection)
    ensures
        r.name@ == name@,
        r.fields@.len() == 0,
{
    Selection { name: String::from_str(name), fields: Vec::new() }
}

proof fn lemma_push(fs: Seq<Selection>, s: Selection)
    ensures
        valid_selections(fs.push(s)) == (valid_selections(fs) && valid_selection(s)),
        selections_text(fs.push(s)) == selections_text(fs) + " "@ + selection_text(s),
{
    assert(fs.push(s).drop_last() =~= fs);
}

proof fn lemma_empty()
    ensures
        valid_selections(Seq::<Selection>::empty()),
        selections_text(Seq::<Selection>::empty()) == Seq::<char>::empty(),
{
}

fn leaf_pair() -> (r: Vec<Selection>)
    ensures
        valid_selections(r@),
        selections_text(r@) == " id name"@,
{
    let mut fields: Vec<Selection> = Vec::new();
    let ghost e = fields@;
    let a = leaf("id");
    fields.push(a);
    let ghost f1 = fields@;
    let b = leaf("name");
    fields.push(b);
    proof {
        reveal_strlit("id");
        reveal_strlit("name");
        reveal_strlit(" ");
        reveal_strlit(" id name");
        assert(e =~= Seq::<Selection>::empty());
        lemma_empty();
        lemma_push(e, a);
        lemma_push(f1, b);
        assert(valid_name("id"@));
        assert(valid_name("name"@));
        assert(valid_selection(a));
        assert(valid_selection(b));
        assert(selections_text(fields@) =~= " id name"@);
    }
    fields
}

fn client_selection() -> (r: Selection)
    ensures
        valid_selection(r),
        selection_text(r) == "queryClient { id name projects { id name } }"@,
{
    let projects = Selection { name: String::from_str("projects"), fields: leaf_pair() };
    let mut fields = leaf_pair();
    let ghost f2 = fields@;
    fields.push(projects);
    let r = Selection { name: String::from_str("queryClient"), fields };
    proof {
        reveal_strlit("projects");
        reveal_strlit("queryClient");
        reveal_strlit(" {");
        reveal_strlit(" }");
        reveal_strlit(" ");
        reveal_strlit(" id name");
        reveal_strlit("projects { id name }");
        reveal_strlit(" id name projects { id name }");
        reveal_strlit("queryClient { id name projects { id name } }");
        assert(valid_name("projects"@));
        assert(valid_name("queryClient"@));
        lemma_push(f2, projects);
        assert(selection_text(projects) =~= "projects { id name }"@);
        assert(selections_text(r.fields@) =~= " id name projects { id name }"@);
        assert(selection_text(r) =~= "queryClient { id name projects { id name } }"@);
    }
    r
}

/// The clients-with-projects query: every client's `id` and `name`, and the
/// `id` and `name` of each of its projects.
pub fn clients_with_projects_query() -> (r: QueryDescriptor)
    ensures
        valid_descriptor(r),
        query_text(r)
            == "query ClientsWithProjects { queryClient { id name projects { id name } } }"@,
{
    let mut fields: Vec<Selection> = Vec::new();
    let ghost e = fields@;
    let c = client_selection();
    fields.push(c);
    let r = QueryDescriptor { operation: String::from_str("ClientsWithProjects"), fields };
    proof {
        reveal_strlit("ClientsWithProjects");
        reveal_strlit("query ");
        reveal_strlit(" {");
        reveal_strlit(" }");
        reveal_strlit(" ");
        reveal_strlit("queryClient { id name projects { id name } }");
        reveal_strlit("query ClientsWithProjects { queryClient { id name projects { id name } } }");
        assert(valid_name("ClientsWithProjects"@));
        assert(e =~= Seq::<Selection>::empty());
        lemma_empty();
        lemma_push(e, c);
        assert(query_text(r)
            =~= "query ClientsWithProjects { queryClient { id name projects { id name } } }"@);
    }
    r
}

} // verus!
