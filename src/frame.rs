//! The request line: one JSON object `{"method": .., "params": ..}` and a
//! newline.
use crate::json::{json_string_text, lemma_string_text_has_no_line_feed, quote_json};
use vstd::prelude::*;

verus! {

/// One request to a worker: the operation's name and its parameters as a JSON
/// text.
#[derive(Debug, Clone, PartialEq, Eq)]
pub struct Call {
    pub method: String,
    pub params: String,
}

/// One member of an object: the key's JSON text, a colon, the value's JSON text.
pub open spec fn member_entry(key: Seq<char>, value: Seq<char>) -> Seq<char> {
    json_string_text(key) + seq![':'] + value
}

/// The members of an object, separated by commas.
pub open spec fn members_text(m: Seq<(Seq<char>, Seq<char>)>) -> Seq<char>
    decreases m.len(),
{
    if m.len() == 0 {
        Seq::empty()
    } else if m.len() == 1 {
        member_entry(m[0].0, m[0].1)
    } else {
        members_text(m.drop_last()) + seq![','] + member_entry(m.last().0, m.last().1)
    }
}

/// The compact JSON text of an object with the given keys and value texts, in
/// the given order.
pub open spec fn object_text(m: Seq<(Seq<char>, Seq<char>)>) -> Seq<char> {
    seq!['{'] + members_text(m) + seq!['}']
}

/// The keys and value texts of `(key, value)` pairs.
pub open spec fn members_view(m: Seq<(String, String)>) -> Seq<(Seq<char>, Seq<char>)> {
    m.map_values(|p: (String, String)| (p.0@, p.1@))
}

/// The request line for a call of `method` with the parameter text `params`.
pub open spec fn request_line(method: Seq<char>, params: Seq<char>) -> Seq<char> {
    object_text(seq![("method"@, json_string_text(method)), ("params"@, params)]) + seq!['\n']
}

/// What stands before the parameters on the request line of `method`.
pub open spec fn request_head(method: Seq<char>) -> Seq<char> {
    seq!['{'] + member_entry("method"@, json_string_text(method)) + seq![','] + json_string_text(
        "params"@,
    ) + seq![':']
}

/// Builds a JSON object from `(key, value)` pairs, where each key is plain
/// text and each value is already JSON text.
pub fn json_object(members: &Vec<(String, String)>) -> (r: String)
    ensures
        r@ == object_text(members_view(members@)),
{
    proof {
        reveal_strlit("{");
        reveal_strlit("}");
    }
    let ghost m = members_view(members@);
    let mut out = String::new();
    out.append("{");
    let mut i: usize = 0;
    while i < members.len()
        invariant
            0 <= i <= members.len(),
            m == members_view(members@),
            out@ == seq!['{'] + members_text(m.take(i as int)),
        decreases members.len() - i,
    {
        proof {
            reveal_strlit(",");
            reveal_strlit(":");
        }
        let pair = &members[i];
        let ghost before = out@;
        if i > 0 {
            out.append(",");
            assert(out@ =~= before + seq![',']);
        }
        let ghost sep = out@;
        let key = quote_json(pair.0.as_str());
        out.append(key.as_str());
        out.append(":");
        out.append(pair.1.as_str());
        assert(out@ =~= sep + member_entry(pair.0@, pair.1@));
        proof {
            let t = m.take(i as int + 1);
            assert(t.drop_last() =~= m.take(i as int));
            assert(t.last() == (pair.0@, pair.1@));
            let entry = member_entry(pair.0@, pair.1@);
            if i == 0 {
                assert(m.take(0) =~= Seq::<(Seq<char>, Seq<char>)>::empty());
                assert(t[0] == t.last());
                assert(out@ =~= seq!['{'] + members_text(t));
            } else {
                assert(out@ =~= before + seq![','] + entry);
                assert(out@ =~= seq!['{'] + members_text(t));
            }
        }
        i = i + 1;
    }
    assert(m.take(i as int) =~= m);
    out.append("}");
    out
}

/// Encodes a call as its request line.
pub fn encode_call(call: &Call) -> (r: String)
    ensures
        r@ == request_line(call.method@, call.params@),
{
    proof {
        reveal_strlit("method");
        reveal_strlit("params");
        reveal_strlit("\n");
    }
    let mut members: Vec<(String, String)> = Vec::new();
    members.push((String::from_str("method"), quote_json(call.method.as_str())));
    members.push((String::from_str("params"), call.params.clone()));
    let mut line = json_object(&members);
    line.append("\n");
    proof {
        assert(members_view(members@) =~= seq![
            ("method"@, json_string_text(call.method@)),
            ("params"@, call.params@),
        ]);
    }
    line
}

/// The parameters travel verbatim: the request line is a head that depends on
/// the method alone, then the parameter text, then `}` and the newline; so the
/// parameters can be read back out of the line unchanged.
pub proof fn lemma_params_carried_verbatim(method: Seq<char>, params: Seq<char>)
    ensures
        request_line(method, params) == request_head(method) + params + seq!['}', '\n'],
        request_line(method, params).subrange(
            request_head(method).len() as int,
            request_line(method, params).len() - 2,
        ) == params,
{
    let m = seq![("method"@, json_string_text(method)), ("params"@, params)];
    assert(m.drop_last() =~= seq![("method"@, json_string_text(method))]);
    assert(members_text(m.drop_last()) == member_entry("method"@, json_string_text(method)));
    assert(request_line(method, params) =~= request_head(method) + params + seq!['}', '\n']);
    assert(request_line(method, params).subrange(
        request_head(method).len() as int,
        request_line(method, params).len() - 2,
    ) =~= params);
}

/// A request is one line: where the parameter text holds no line feed, the
/// request line's only line feed is its last character.
pub proof fn lemma_request_is_one_line(method: Seq<char>, params: Seq<char>)
    requires
        forall|i: int| 0 <= i < params.len() ==> params[i] != '\n',
    ensures
        request_line(method, params).last() == '\n',
        forall|i: int|
            0 <= i < request_line(method, params).len() - 1 ==> request_line(method, params)[i]
                != '\n',
{
    lemma_params_carried_verbatim(method, params);
    lemma_string_text_has_no_line_feed("method"@);
    lemma_string_text_has_no_line_feed(method);
    lemma_string_text_has_no_line_feed("params"@);
    let k1 = json_string_text("method"@);
    let k2 = json_string_text(method);
    let k3 = json_string_text("params"@);
    let head = request_head(method);
    assert(head =~= seq!['{'] + k1 + seq![':'] + k2 + seq![','] + k3 + seq![':']);
    assert forall|i: int| 0 <= i < head.len() implies head[i] != '\n' by {
        let o1 = 1 + k1.len();
        let o2 = o1 + 1 + k2.len();
        let o3 = o2 + 1 + k3.len();
        if 1 <= i < o1 {
            assert(head[i] == k1[i - 1]);
        } else if o1 + 1 <= i < o2 {
            assert(head[i] == k2[i - o1 - 1]);
        } else if o2 + 1 <= i < o3 {
            assert(head[i] == k3[i - o2 - 1]);
        }
    }
    let line = request_line(method, params);
    assert forall|i: int| 0 <= i < line.len() - 1 implies line[i] != '\n' by {
        if i < head.len() {
            assert(line[i] == head[i]);
        } else if i < head.len() + params.len() {
            assert(line[i] == params[i - head.len()]);
        }
    }
}

} // verus!
