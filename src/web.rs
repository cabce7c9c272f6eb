use crate::json::{json_quoted, push_json_string};
use vstd::prelude::*;

verus! {

/// The JSON body the HTTP handlers accept.
pub struct MyPayload {
    pub prop1: String,
    pub prop2: String,
}

pub open spec fn payload_json(prop1: Seq<char>, prop2: Seq<char>) -> Seq<char> {
    "{\"prop1\":"@ + json_quoted(prop1) + ",\"prop2\":"@ + json_quoted(prop2) + "}"@
}

impl MyPayload {
    /// The payload as compact JSON.
    pub fn to_json(&self) -> (r: String)
        ensures
            r@ == payload_json(self.prop1@, self.prop2@),
    {
        let mut out = String::from_str("{\"prop1\":");
        push_json_string(&mut out, self.prop1.as_str());
        out.append(",\"prop2\":");
        push_json_string(&mut out, self.prop2.as_str());
        out.append("}");
        out
    }
}

pub open spec fn hello_json(payload: Option<MyPayload>) -> Seq<char> {
    "{\"message\":\"Hello World\",\"payload\":"@ + match payload {
        Some(p) => payload_json(p.prop1@, p.prop2@),
        None => "null"@,
    } + "}"@
}

/// The body that echoes a request's payload (`null` when it had none).
pub fn hello_body(payload: &Option<MyPayload>) -> (r: String)
    ensures
        r@ == hello_json(*payload),
{
    let mut out = String::from_str("{\"message\":\"Hello World\",\"payload\":");
    match payload {
        Some(p) => {
            let j = p.to_json();
            out.append(j.as_str());
        },
        None => out.append("null"),
    }
    out.append("}");
    out
}

/// The load-balancer handler's body: the echo when the request carried a
/// payload, an error message when it did not.
pub fn alb_body(payload: &Option<MyPayload>) -> (r: String)
    ensures
        payload is Some ==> r@ == hello_json(*payload),
        payload is None ==> r@ == "{\"message\":\"Some error with the POST\"}"@,
{
    match payload {
        Some(_) => hello_body(payload),
        None => String::from_str("{\"message\":\"Some error with the POST\"}"),
    }
}

/// `hello <name>`, with `stranger` for a missing name.
pub fn hello_name(name: Option<&str>) -> (r: String)
    ensures
        r@ == "hello "@ + match name {
            Some(n) => n@,
            None => "stranger"@,
        },
{
    let mut out = String::from_str("hello ");
    match name {
        Some(n) => out.append(n),
        None => out.append("stranger"),
    }
    out
}

/// The text before the first comma (all of it when there is none).
pub open spec fn first_field(s: Seq<char>) -> Seq<char>
    decreases s.len(),
{
    if s.len() == 0 {
        s
    } else if s[0] == ',' {
        Seq::empty()
    } else {
        seq![s[0]] + first_field(s.drop_first())
    }
}

proof fn lemma_first_field(s: Seq<char>, i: int)
    requires
        0 <= i <= s.len(),
        forall|j: int| 0 <= j < i ==> s[j] != ',',
        i < s.len() ==> s[i] == ',',
    ensures
        first_field(s) == s.take(i),
    decreases s.len(),
{
    if s.len() > 0 && i > 0 {
        let t = s.drop_first();
        assert forall|j: int| 0 <= j < i - 1 implies t[j] != ',' by {
            assert(t[j] == s[j + 1]);
        }
        lemma_first_field(t, i - 1);
        assert(s.take(i) =~= seq![s[0]] + t.take(i - 1));
    } else if s.len() > 0 {
        assert(s.take(i) =~= Seq::<char>::empty());
    }
}

/// The client address a `x-forwarded-for` header names first.
pub fn get_ip_address(forwarded_for: Option<&str>) -> (r: Option<String>)
    ensures
        match forwarded_for {
            Some(h) => r matches Some(ip) && ip@ == first_field(h@),
            None => r is None,
        },
{
    match forwarded_for {
        None => None,
        Some(h) => {
            let n = h.unicode_len();
            let mut i: usize = 0;
            while i < n && h.get_char(i) != ','
                invariant
                    n == h@.len(),
                    i <= n,
                    forall|j: int| 0 <= j < i ==> h@[j] != ',',
                decreases n - i,
            {
                i = i + 1;
            }
            proof {
                lemma_first_field(h@, i as int);
            }
            Some(String::from_str(h.substring_char(0, i)))
        },
    }
}

pub open spec fn greeting_text(forwarded_for: Option<&str>, allowed: Option<&str>) -> Seq<char> {
    let ip = match forwarded_for {
        Some(h) => first_field(h@),
        None => "stranger"@,
    };
    match allowed {
        Some(p) => "hello "@ + p@ + " ip: "@ + ip,
        None => "hello "@ + ip,
    }
}

/// The CDN-fronted greeting: the first forwarded address (or `stranger`),
/// preceded by the allowed query parameter when the request has one.
pub fn greeting_body(forwarded_for: Option<&str>, allowed_param: Option<&str>) -> (r: String)
    ensures
        r@ == greeting_text(forwarded_for, allowed_param),
{
    let ip = match get_ip_address(forwarded_for) {
        Some(ip) => ip,
        None => String::from_str("stranger"),
    };
    let mut out = String::from_str("hello ");
    match allowed_param {
        Some(p) => {
            out.append(p);
            out.append(" ip: ");
            out.append(ip.as_str());
        },
        None => out.append(ip.as_str()),
    }
    out
}

} // verus!
