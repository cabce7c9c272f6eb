use crate::json::{json_quoted, push_json_string};
use vstd::prelude::*;

verus! {

/// A stored item, addressed by its partition and sort keys.
pub struct Item {
    pk: String,
    sk: String,
}

pub open spec fn item_json(pk: Seq<char>, sk: Seq<char>) -> Seq<char> {
    "{\"pk\":"@ + json_quoted(pk) + ",\"sk\":"@ + json_quoted(sk) + "}"@
}

impl Item {
    pub fn new(pk: String, sk: String) -> (r: Item)
        ensures
            r.pk_spec() == pk@,
            r.sk_spec() == sk@,
    {
        Item { pk: pk, sk: sk }
    }

    pub closed spec fn pk_spec(&self) -> Seq<char> {
        self.pk@
    }

    pub closed spec fn sk_spec(&self) -> Seq<char> {
        self.sk@
    }

    pub fn pk(&self) -> (r: &str)
        ensures
            r@ == self.pk_spec(),
    {
        self.pk.as_str()
    }

    pub fn sk(&self) -> (r: &str)
        ensures
            r@ == self.sk_spec(),
    {
        self.sk.as_str()
    }

    /// The item as compact JSON.
    pub fn to_json(&self) -> (r: String)
        ensures
            r@ == item_json(self.pk_spec(), self.sk_spec()),
    {
        let mut out = String::from_str("{\"pk\":");
        push_json_string(&mut out, self.pk.as_str());
        out.append(",\"sk\":");
        push_json_string(&mut out, self.sk.as_str());
        out.append("}");
        out
    }
}

/// Why an item could not be had.
#[derive(Debug, Clone, PartialEq, Eq)]
pub enum ItemError {
    /// A JSON value (its text) did not form an item.
    FromValue(String),
    /// The stored record did not form an item; the decoder's report.
    FromSerde(String),
    /// The database refused the request; its report.
    Dynamo(String),
    NotFound,
    /// Any other failure of the request; its report.
    Unknown(String),
}

impl ItemError {
    pub open spec fn message_spec(&self) -> Seq<char> {
        match self {
            ItemError::FromValue(e) => "failed to parse serde_json::Value into Item "@ + e@,
            ItemError::FromSerde(e) => "failed to parse response into items: "@ + e@,
            ItemError::Dynamo(e) => "aws_sdk_dynamodb error: "@ + e@,
            ItemError::NotFound => "item not found"@,
            ItemError::Unknown(e) => "unknown DynamoDB item error: "@ + e@,
        }
    }

    pub fn message(&self) -> (r: String)
        ensures
            r@ == self.message_spec(),
    {
        let (head, detail) = match self {
            ItemError::FromValue(e) => ("failed to parse serde_json::Value into Item ", e.as_str()),
            ItemError::FromSerde(e) => ("failed to parse response into items: ", e.as_str()),
            ItemError::Dynamo(e) => ("aws_sdk_dynamodb error: ", e.as_str()),
            ItemError::NotFound => ("item not found", ""),
            ItemError::Unknown(e) => ("unknown DynamoDB item error: ", e.as_str()),
        };
        let mut m = String::from_str(head);
        m.append(detail);
        proof {
            reveal_strlit("");
        }
        assert(m@ =~= self.message_spec());
        m
    }
}

/// The key that addresses the item with identifier `id`: both keys are `id`.
pub fn item_key(id: &str) -> (r: Vec<(String, String)>)
    ensures
        r@.len() == 2,
        r@[0].0@ == "pk"@ && r@[0].1@ == id@,
        r@[1].0@ == "sk"@ && r@[1].1@ == id@,
{
    let mut key: Vec<(String, String)> = Vec::new();
    key.push((String::from_str("pk"), String::from_str(id)));
    key.push((String::from_str("sk"), String::from_str(id)));
    key
}

/// The result of a lookup from what the database returned: `None` when it
/// found no record, else the record decoded as an item (the decoder's report
/// on failure).
pub fn fetch_item(found: Option<Result<Item, String>>) -> (r: Result<Item, ItemError>)
    ensures
        match found {
            None => r == Err::<Item, ItemError>(ItemError::NotFound),
            Some(Err(e)) => r == Err::<Item, ItemError>(ItemError::FromSerde(e)),
            Some(Ok(item)) => r == Ok::<Item, ItemError>(item),
        },
{
    match found {
        None => Err(ItemError::NotFound),
        Some(Err(e)) => Err(ItemError::FromSerde(e)),
        Some(Ok(item)) => Ok(item),
    }
}

/// The HTTP answer of the item endpoint.
pub struct ProxyResponse {
    pub status_code: i64,
    pub is_base64_encoded: bool,
    pub body: String,
}

/// Answers an item request: `None` when the path carries no identifier, else
/// the lookup's result. Found items are 200 with the item as JSON; anything
/// else is 404 with an empty body.
pub fn item_response(lookup: Option<Result<Item, ItemError>>) -> (r: ProxyResponse)
    ensures
        !r.is_base64_encoded,
        match lookup {
            Some(Ok(item)) => r.status_code == 200 && r.body@ == item_json(
                item.pk_spec(),
                item.sk_spec(),
            ),
            _ => r.status_code == 404 && r.body@ == Seq::<char>::empty(),
        },
{
    match lookup {
        Some(Ok(item)) => ProxyResponse {
            status_code: 200,
            is_base64_encoded: false,
            body: item.to_json(),
        },
        _ => ProxyResponse { status_code: 404, is_base64_encoded: false, body: String::new() },
    }
}

} // verus!
