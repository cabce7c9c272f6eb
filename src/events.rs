use crate::json::{json_quoted, push_json_string};
use crate::websocket::HandlerError;
use vstd::prelude::*;

verus! {

/// Most entries one put-events request may carry.
pub const PUT_EVENTS_BATCH: usize = 10;

/// One entry of a put-events request to an event bus.
pub struct EventEntry {
    pub event_bus_name: String,
    pub source: String,
    pub detail_type: String,
    pub detail: String,
}

/// An entry on bus `bus`, from the demo source, of type `kind`, with `detail`.
pub open spec fn entry_is(
    e: EventEntry,
    bus: Seq<char>,
    kind: Seq<char>,
    detail: Seq<char>,
) -> bool {
    &&& e.event_bus_name@ == bus
    &&& e.source@ == "demo.event"@
    &&& e.detail_type@ == kind
    &&& e.detail@ == detail
}

fn entry(bus_name: &str, detail_type: &str, detail: &str) -> (r: EventEntry)
    ensures
        entry_is(r, bus_name@, detail_type@, detail@),
{
    EventEntry {
        event_bus_name: String::from_str(bus_name),
        source: String::from_str("demo.event"),
        detail_type: String::from_str(detail_type),
        detail: String::from_str(detail),
    }
}

/// Turns the new images of changed records (as JSON text) into `INSERTED`
/// entries on `bus_name`, grouped in requests of at most ten, in order.
pub fn change_entries(bus_name: &str, images: &Vec<String>) -> (r: Vec<Vec<EventEntry>>)
    ensures
        r@.len() == (images@.len() + 9) / 10,
        forall|c: int|
            0 <= c < r@.len() ==> #[trigger] r@[c]@.len() == if images@.len() - 10 * c < 10 {
                images@.len() - 10 * c
            } else {
                10
            },
        forall|c: int, k: int|
            0 <= c < r@.len() && 0 <= k < r@[c]@.len() ==> entry_is(
                #[trigger] r@[c]@[k],
                bus_name@,
                "INSERTED"@,
                images@[10 * c + k]@,
            ),
{
    let n = images.len();
    let mut chunks: Vec<Vec<EventEntry>> = Vec::new();
    let mut i: usize = 0;
    while i < n
        invariant
            n == images@.len(),
            i <= n,
            i == 10 * chunks@.len() || i == n,
            i < n ==> i == 10 * chunks@.len(),
            i == n ==> chunks@.len() == (n + 9) / 10,
            forall|c: int|
                0 <= c < chunks@.len() ==> #[trigger] chunks@[c]@.len() == if n - 10 * c < 10 {
                    n - 10 * c
                } else {
                    10
                },
            forall|c: int, k: int|
                0 <= c < chunks@.len() && 0 <= k < chunks@[c]@.len() ==> entry_is(
                    #[trigger] chunks@[c]@[k],
                    bus_name@,
                    "INSERTED"@,
                    images@[10 * c + k]@,
                ),
        decreases n - i,
    {
        let end: usize = if n - i < PUT_EVENTS_BATCH {
            n
        } else {
            i + PUT_EVENTS_BATCH
        };
        let mut chunk: Vec<EventEntry> = Vec::new();
        let mut j: usize = i;
        while j < end
            invariant
                i <= j <= end <= n,
                n == images@.len(),
                chunk@.len() == j - i,
                forall|k: int|
                    0 <= k < chunk@.len() ==> entry_is(
                        #[trigger] chunk@[k],
                        bus_name@,
                        "INSERTED"@,
                        images@[i + k]@,
                    ),
            decreases end - j,
        {
            chunk.push(entry(bus_name, "INSERTED", images[j].as_str()));
            j = j + 1;
        }
        let ghost before = chunks@;
        chunks.push(chunk);
        assert forall|c: int, k: int|
            0 <= c < chunks@.len() && 0 <= k < chunks@[c]@.len() implies entry_is(
            #[trigger] chunks@[c]@[k],
            bus_name@,
            "INSERTED"@,
            images@[10 * c + k]@,
        ) by {
            if c < before.len() {
                assert(chunks@[c] == before[c]);
            }
        }
        i = end;
    }
    chunks
}

/// The message the publisher handler sends.
pub struct MyMessage {
    pub message: String,
    pub state: String,
}

pub open spec fn message_json(message: Seq<char>, state: Seq<char>) -> Seq<char> {
    "{\"message\":"@ + json_quoted(message) + ",\"state\":"@ + json_quoted(state) + "}"@
}

impl MyMessage {
    /// A new publisher greeting.
    pub fn greeting() -> (r: MyMessage)
        ensures
            r.message@ == "Hello from publisher"@,
            r.state@ == "new"@,
    {
        MyMessage {
            message: String::from_str("Hello from publisher"),
            state: String::from_str("new"),
        }
    }

    /// The message as compact JSON.
    pub fn to_json(&self) -> (r: String)
        ensures
            r@ == message_json(self.message@, self.state@),
    {
        let mut out = String::from_str("{\"message\":");
        push_json_string(&mut out, self.message.as_str());
        out.append(",\"state\":");
        push_json_string(&mut out, self.state.as_str());
        out.append("}");
        out
    }
}

/// The entry the publisher puts on `bus_name`: a `Message` carrying the
/// greeting as JSON.
pub fn publisher_entry(bus_name: &str) -> (r: EventEntry)
    ensures
        entry_is(
            r,
            bus_name@,
            "Message"@,
            message_json("Hello from publisher"@, "new"@),
        ),
{
    let m = MyMessage::greeting();
    let detail = m.to_json();
    entry(bus_name, "Message", detail.as_str())
}

/// The bucket and key an object notification names; both are required,
/// the bucket first.
pub fn object_location(bucket: Option<String>, key: Option<String>) -> (r: Result<
    (String, String),
    HandlerError,
>)
    ensures
        bucket is None ==> r == Err::<(String, String), HandlerError>(
            HandlerError::MissingBucketName,
        ),
        bucket is Some && key is None ==> r == Err::<(String, String), HandlerError>(
            HandlerError::MissingObjectKey,
        ),
        bucket is Some && key is Some ==> r == Ok::<(String, String), HandlerError>(
            (bucket->0, key->0),
        ),
{
    match (bucket, key) {
        (None, _) => Err(HandlerError::MissingBucketName),
        (Some(_), None) => Err(HandlerError::MissingObjectKey),
        (Some(b), Some(k)) => Ok((b, k)),
    }
}

/// Positions, in order, of the text detections that have no parent (whole
/// lines rather than words).
pub fn top_level_detections(parent_ids: &Vec<Option<i32>>) -> (r: Vec<usize>)
    ensures
        r@ == Seq::new(parent_ids@.len(), |i: int| i).filter(|i: int| parent_ids@[i] is None).map_values(
            |i: int| i as usize,
        ),
{
    let mut out: Vec<usize> = Vec::new();
    let mut i: usize = 0;
    let ghost all = Seq::new(parent_ids@.len(), |i: int| i);
    while i < parent_ids.len()
        invariant
            i <= parent_ids@.len(),
            all == Seq::new(parent_ids@.len(), |i: int| i),
            out@ == all.take(i as int).filter(|i: int| parent_ids@[i] is None).map_values(
                |i: int| i as usize,
            ),
        decreases parent_ids@.len() - i,
    {
        proof {
            assert(all.take(i as int + 1).drop_last() =~= all.take(i as int));
            assert(all.take(i as int + 1).last() == i as int);
            reveal(Seq::filter);
        }
        if parent_ids[i].is_none() {
            out.push(i);
        }
        proof {
            let f = all.take(i as int).filter(|i: int| parent_ids@[i] is None);
            let g = all.take(i as int + 1).filter(|i: int| parent_ids@[i] is None);
            if parent_ids@[i as int] is None {
                assert(g == f.push(i as int));
            } else {
                assert(g == f);
            }
            assert(out@ =~= g.map_values(|i: int| i as usize));
        }
        i = i + 1;
    }
    assert(all.take(parent_ids@.len() as int) =~= all);
    out
}

/// The character of a decimal digit `d < 10`.
pub open spec fn digit_char(d: nat) -> char {
    seq!['0', '1', '2', '3', '4', '5', '6', '7', '8', '9'][d as int]
}

/// The decimal digits of `n`, most significant first, without leading zeros.
pub open spec fn digits(n: nat) -> Seq<char>
    decreases n,
{
    if n < 10 {
        seq![digit_char(n)]
    } else {
        digits(n / 10).push(digit_char(n % 10))
    }
}

/// `n` written in decimal, with a leading `-` when it is negative.
pub open spec fn decimal(n: int) -> Seq<char> {
    if n < 0 {
        seq!['-'] + digits((-n) as nat)
    } else {
        digits(n as nat)
    }
}

fn digits_of(m: u64) -> (r: String)
    ensures
        r@ == digits(m as nat),
    decreases m,
{
    let table = "0123456789";
    proof {
        reveal_strlit("0123456789");
    }
    let d = (m % 10) as usize;
    let last = table.substring_char(d, d + 1);
    assert(last@ =~= seq![digit_char(d as nat)]);
    if m < 10 {
        String::from_str(last)
    } else {
        let mut out = digits_of(m / 10);
        out.append(last);
        out
    }
}

/// `n` written in decimal.
pub fn decimal_string(n: i64) -> (r: String)
    ensures
        r@ == decimal(n as int),
{
    if n < 0 {
        let m: u64 = if n == i64::MIN {
            9223372036854775808u64
        } else {
            (-n) as u64
        };
        let mut out = String::from_str("-");
        let body = digits_of(m);
        out.append(body.as_str());
        proof {
            reveal_strlit("-");
        }
        out
    } else {
        digits_of(n as u64)
    }
}

/// Relies on `chrono::Utc::now().timestamp()`: the current time, in whole
/// seconds since the Unix epoch; `now` reads it from `SystemTime` and fails
/// on a clock before the epoch, so a returned value is never negative.
#[verifier::external_body]
fn unix_now() -> (r: i64)
    ensures
        r >= 0,
{
    chrono::Utc::now().timestamp()
}

/// An invocation's event, as stored: keyed by the second it arrived, with
/// the event itself as JSON.
pub struct StoredEvent {
    pub id: String,
    pub metadata: String,
}

impl StoredEvent {
    /// The record for an event that arrived at `timestamp` (seconds since the
    /// epoch).
    pub fn new(timestamp: i64, metadata: String) -> (r: StoredEvent)
        ensures
            r.id@ == decimal(timestamp as int),
            r.metadata@ == metadata@,
    {
        StoredEvent { id: decimal_string(timestamp), metadata }
    }

    /// The record for an event arriving now.
    pub fn stamped_now(metadata: String) -> (r: StoredEvent)
        ensures
            exists|t: int| t >= 0 && r.id@ == decimal(t),
            r.metadata@ == metadata@,
    {
        let t = unix_now();
        StoredEvent::new(t, metadata)
    }
}

/// An object notification delivered straight to the handler.
pub struct S3Event {
    pub bucket: S3Bucket,
    pub object: S3Object,
    pub reason: String,
}

pub struct S3Bucket {
    pub name: String,
}

pub struct S3Object {
    pub key: String,
    pub size: i64,
}

/// The input handed to the state machine.
pub struct PayLoad {
    pub is_hello_world_example: String,
}

impl Default for PayLoad {
    fn default() -> (r: PayLoad)
        ensures
            r.is_hello_world_example@ == Seq::<char>::empty(),
    {
        PayLoad { is_hello_world_example: String::new() }
    }
}

} // verus!
