//! The broker egress engine: the bounded relay queue, connect-time validation
//! of broker reachability, the delivery loop, and per-outcome metric naming.

use vstd::prelude::*;
use vstd::string::StringExecFns;
use std::collections::HashMap;
use std::sync::Arc;
use crossbeam::channel::Receiver;
use crossbeam::channel::Sender;
use dipstick::AtomicBucket;
use dipstick::TimeHandle;
use dipstick::Timer;
use futures::channel::oneshot::Canceled;
use futures::executor::ThreadPool;
use futures::future::FutureExt;
use rdkafka::client::DefaultClientContext;
use rdkafka::config::ClientConfig;
use rdkafka::consumer::BaseConsumer;
use rdkafka::consumer::Consumer;
use rdkafka::consumer::DefaultConsumerContext;
use rdkafka::error::KafkaError;
use rdkafka::error::RDKafkaErrorCode;
use rdkafka::message::OwnedMessage;
use rdkafka::producer::DeliveryFuture;
use rdkafka::producer::FutureProducer;
use rdkafka::producer::FutureRecord;
use rdkafka::util::DefaultRuntime;
use crate::metrics::count_one;
use crate::metrics::start_timer;
use crate::metrics::stop_timer;

verus! {

// ---------------------------------------------------------------------------
// Messages
// ---------------------------------------------------------------------------

/// No NUL character anywhere: what the broker client demands of a topic
/// name, which it passes to librdkafka as a C string.
pub open spec fn nul_free(s: Seq<char>) -> bool {
    forall|i: int| 0 <= i < s.len() ==> (#[trigger] s[i]) != '\0'
}

/// A message and its destination topic, carried from a connection session
/// through the relay queue to the delivery loop. Every message's topic is
/// NUL-free, so submitting it to the broker client cannot trip over the C
/// string conversion.
pub struct KafkaMessage {
    topic: String,
    msg: String,
}

/// The mathematical content of a `KafkaMessage`.
pub struct KafkaMessageView {
    pub topic: Seq<char>,
    pub msg: Seq<char>,
}

impl View for KafkaMessage {
    type V = KafkaMessageView;

    closed spec fn view(&self) -> KafkaMessageView {
        KafkaMessageView { topic: self.topic@, msg: self.msg@ }
    }
}

impl KafkaMessage {
    /// The topic of every message is NUL-free.
    #[verifier::type_invariant]
    pub closed spec fn inv(self) -> bool {
        nul_free(self.topic@)
    }

    pub fn new(topic: String, msg: String) -> (m: KafkaMessage)
        requires
            nul_free(topic@),
        ensures
            m@.topic == topic@,
            m@.msg == msg@,
    {
        KafkaMessage { topic, msg }
    }
}

// ---------------------------------------------------------------------------
// Metric-name normalization
// ---------------------------------------------------------------------------

/// ASCII lowercasing of one character; every other character is unchanged.
pub open spec fn lower_char(c: char) -> char {
    if 65 <= c as u32 && c as u32 <= 90 {
        ((c as u32) + 32) as char
    } else {
        c
    }
}

/// ASCII whitespace: the characters that end the first token.
pub open spec fn is_space(c: char) -> bool {
    c == ' ' || c == '\t' || c == '\n' || c == '\r' || c == '\x0b' || c == '\x0c'
}

fn is_space_char(c: char) -> (r: bool)
    ensures
        r == is_space(c),
{
    c == ' ' || c == '\t' || c == '\n' || c == '\r' || c == '\x0b' || c == '\x0c'
}

/// Index of the first whitespace character at or after `i`, or the length
/// if there is none.
pub open spec fn space_scan(s: Seq<char>, i: int) -> int
    decreases s.len() - i,
{
    if i < 0 || i >= s.len() {
        s.len() as int
    } else if is_space(s[i]) {
        i
    } else {
        space_scan(s, i + 1)
    }
}

/// Index of the first whitespace character in `s`, or the length if there
/// is none.
pub open spec fn first_space(s: Seq<char>) -> int {
    space_scan(s, 0)
}

/// What a broker error description turns into as a metric-name component:
/// its first whitespace-delimited token, ASCII-lowercased; `"unknown"` when
/// the description is empty.
pub open spec fn normalize_spec(s: Seq<char>) -> Seq<char> {
    if s.len() == 0 {
        seq!['u', 'n', 'k', 'n', 'o', 'w', 'n']
    } else {
        s.take(first_space(s)).map(|i: int, c: char| lower_char(c))
    }
}

/// A name fit for a metrics backend: no whitespace, no ASCII uppercase.
pub open spec fn normalized_form(s: Seq<char>) -> bool {
    forall|i: int|
        0 <= i < s.len() ==> !is_space(#[trigger] s[i]) && !(65 <= s[i] as u32 && s[i] as u32
            <= 90)
}

proof fn lemma_space_scan(s: Seq<char>, i: int)
    requires
        0 <= i <= s.len(),
    ensures
        i <= space_scan(s, i) <= s.len(),
        forall|j: int| i <= j < space_scan(s, i) ==> !is_space(s[j]),
        space_scan(s, i) < s.len() ==> is_space(s[space_scan(s, i)]),
    decreases s.len() - i,
{
    if i < s.len() && !is_space(s[i]) {
        lemma_space_scan(s, i + 1);
    }
}

proof fn lemma_first_space_unique(s: Seq<char>, m: int)
    requires
        0 <= m <= s.len(),
        forall|j: int| 0 <= j < m ==> !is_space(s[j]),
        m < s.len() ==> is_space(s[m]),
    ensures
        first_space(s) == m,
{
    lemma_space_scan(s, 0);
}

/// Every normalized description is fit for use as a metric-name component.
pub proof fn lemma_normalize_normalized(s: Seq<char>)
    ensures
        normalized_form(normalize_spec(s)),
{
    if s.len() == 0 {
        assert forall|i: int| 0 <= i < normalize_spec(s).len() implies !is_space(
            #[trigger] normalize_spec(s)[i],
        ) && !(65 <= normalize_spec(s)[i] as u32 && normalize_spec(s)[i] as u32 <= 90) by {
            assert(normalize_spec(s) == seq!['u', 'n', 'k', 'n', 'o', 'w', 'n']);
        }
    } else {
        lemma_space_scan(s, 0);
        assert forall|i: int| 0 <= i < normalize_spec(s).len() implies !is_space(
            #[trigger] normalize_spec(s)[i],
        ) && !(65 <= normalize_spec(s)[i] as u32 && normalize_spec(s)[i] as u32 <= 90) by {
            assert(normalize_spec(s)[i] == lower_char(s[i]));
            assert(!is_space(s[i]));
        }
    }
}

/// ASCII lowercasing of one character.
fn to_lower_char(c: char) -> (r: char)
    ensures
        r == lower_char(c),
{
    match c {
        'A' => 'a',
        'B' => 'b',
        'C' => 'c',
        'D' => 'd',
        'E' => 'e',
        'F' => 'f',
        'G' => 'g',
        'H' => 'h',
        'I' => 'i',
        'J' => 'j',
        'K' => 'k',
        'L' => 'l',
        'M' => 'm',
        'N' => 'n',
        'O' => 'o',
        'P' => 'p',
        'Q' => 'q',
        'R' => 'r',
        'S' => 's',
        'T' => 't',
        'U' => 'u',
        'V' => 'v',
        'W' => 'w',
        'X' => 'x',
        'Y' => 'y',
        'Z' => 'z',
        _ => c,
    }
}

/// Relies on String::from_iter for characters: the collected string holds
/// exactly the given characters, in order.
#[verifier::external_body]
fn chars_to_string(v: Vec<char>) -> (r: String)
    ensures
        r@ == v@,
{
    v.into_iter().collect()
}

/// Turn a human-readable broker error description into a metric-name
/// component: its first whitespace-delimited token, ASCII-lowercased;
/// `"unknown"` when the description is empty.
pub fn normalize_metric_name(desc: &str) -> (r: String)
    ensures
        r@ == normalize_spec(desc@),
{
    let n = desc.unicode_len();
    if n == 0 {
        let r = "unknown".to_owned();
        proof {
            reveal_strlit("unknown");
            assert(r@ =~= normalize_spec(desc@));
        }
        return r;
    }
    // Find the end of the first token.
    let mut tlen: usize = 0;
    let mut stop: bool = false;
    while !stop && tlen < n
        invariant
            n == desc@.len(),
            tlen <= n,
            forall|j: int| 0 <= j < tlen ==> !is_space(desc@[j]),
            stop ==> tlen < n && is_space(desc@[tlen as int]),
        decreases n - tlen + (if stop { 0int } else { 1int }),
    {
        if is_space_char(desc.get_char(tlen)) {
            stop = true;
        } else {
            tlen = tlen + 1;
        }
    }
    proof {
        lemma_first_space_unique(desc@, tlen as int);
    }
    // Lowercase the token.
    let mut out: Vec<char> = Vec::new();
    let mut i: usize = 0;
    while i < tlen
        invariant
            n == desc@.len(),
            tlen <= n,
            i <= tlen,
            out@.len() == i,
            forall|j: int| 0 <= j < i ==> out@[j] == lower_char(desc@[j]),
        decreases tlen - i,
    {
        out.push(to_lower_char(desc.get_char(i)));
        i = i + 1;
    }
    let r = chars_to_string(out);
    proof {
        assert(r@ =~= normalize_spec(desc@));
    }
    r
}

// ---------------------------------------------------------------------------
// Outside types the engine runs on
// ---------------------------------------------------------------------------

#[verifier::external_type_specification]
#[verifier::external_body]
#[verifier::reject_recursive_types(T)]
pub struct ExSender<T>(Sender<T>);

#[verifier::external_type_specification]
#[verifier::external_body]
#[verifier::reject_recursive_types(T)]
pub struct ExReceiver<T>(Receiver<T>);

#[verifier::external_type_specification]
#[verifier::external_body]
pub struct ExClientConfig(ClientConfig);

/// Holds the metadata consumer used for the connect-time reachability probe.
/// Opaque to the verifier: the consumer's type parameter is bounded by the
/// client library's own traits, so the type cannot be declared directly.
#[verifier::external_body]
pub struct MetadataProbe {
    inner: BaseConsumer<DefaultConsumerContext>,
}

/// Holds the production client handle. Opaque to the verifier: the
/// producer's type parameters are bounded by the client library's own
/// traits, so the type cannot be declared directly.
#[verifier::external_body]
pub struct BrokerProducer {
    inner: FutureProducer<DefaultClientContext, DefaultRuntime>,
}

#[verifier::external_type_specification]
#[verifier::external_body]
pub struct ExKafkaError(KafkaError);

#[verifier::external_type_specification]
#[verifier::external_body]
pub struct ExOwnedMessage(OwnedMessage);

#[verifier::external_type_specification]
#[verifier::external_body]
pub struct ExRDKafkaErrorCode(RDKafkaErrorCode);

#[verifier::external_type_specification]
#[verifier::external_body]
pub struct ExThreadPool(ThreadPool);

#[verifier::external_type_specification]
#[verifier::external_body]
pub struct ExDeliveryFuture(DeliveryFuture);

#[verifier::external_type_specification]
#[verifier::external_body]
pub struct ExCanceled(Canceled);

// ---------------------------------------------------------------------------
// The relay queue
// ---------------------------------------------------------------------------

/// Capacity the relay queue behind this producer handle was created with.
pub uninterp spec fn relay_sender_bound(s: Sender<KafkaMessage>) -> nat;

/// Capacity the relay queue behind this consumer handle was created with.
pub uninterp spec fn relay_receiver_bound(r: Receiver<KafkaMessage>) -> nat;

/// The identity of the channel this producer handle refers to: two handles
/// with the same identity feed the very same queue.
pub uninterp spec fn sender_channel(s: Sender<KafkaMessage>) -> int;

/// The identity of the channel this consumer handle drains.
pub uninterp spec fn receiver_channel(r: Receiver<KafkaMessage>) -> int;

/// Relies on crossbeam's `bounded`: a channel with exactly `cap` message
/// slots, whose `send` blocks while all slots are taken (a zero-capacity
/// channel hands messages off synchronously). Both handles refer to that
/// same channel.
#[verifier::external_body]
fn relay_channel(cap: usize) -> (r: (Sender<KafkaMessage>, Receiver<KafkaMessage>))
    ensures
        relay_sender_bound(r.0) == cap,
        relay_receiver_bound(r.1) == cap,
        sender_channel(r.0) == receiver_channel(r.1),
{
    crossbeam::channel::bounded(cap)
}

/// Relies on `Sender::clone`: the clone refers to the same channel.
#[verifier::external_body]
fn clone_sender(s: &Sender<KafkaMessage>) -> (r: Sender<KafkaMessage>)
    ensures
        relay_sender_bound(r) == relay_sender_bound(*s),
        sender_channel(r) == sender_channel(*s),
{
    s.clone()
}

/// Relies on `Receiver::recv_timeout`: a queued message if one arrived
/// within the wait interval; nothing on expiry or when every sender is gone.
#[verifier::external_body]
fn recv_with_timeout(rx: &Receiver<KafkaMessage>, wait_ms: u64) -> (r: Option<KafkaMessage>) {
    rx.recv_timeout(std::time::Duration::from_millis(wait_ms)).ok()
}

// ---------------------------------------------------------------------------
// Client configuration
// ---------------------------------------------------------------------------

/// The key/value parameters a `ClientConfig` holds.
pub uninterp spec fn config_entries(c: ClientConfig) -> Map<Seq<char>, Seq<char>>;

/// Relies on `ClientConfig::new`: a configuration with no parameters set.
#[verifier::external_body]
fn new_client_config() -> (c: ClientConfig)
    ensures
        forall|k: Seq<char>| !config_entries(c).dom().contains(k),
{
    ClientConfig::new()
}

/// Relies on `ClientConfig::set`: sets the parameter, overriding an existing
/// value for the same key.
#[verifier::external_body]
fn config_set(c: &mut ClientConfig, key: &str, value: &str)
    ensures
        config_entries(*final(c)) == config_entries(*old(c)).insert(key@, value@),
{
    c.set(key, value);
}

/// Relies on `HashMap::iter`: exactly the key/value pairs of the map, in
/// some order — every listed pair is in the map, every pair of the map is
/// listed — and a map holds each key at most once.
#[verifier::external_body]
fn hash_map_entries(m: &HashMap<String, String>) -> (r: Vec<(String, String)>)
    ensures
        forall|i: int, j: int|
            0 <= i < j < r@.len() ==> (#[trigger] r@[i]).0@ != (#[trigger] r@[j]).0@,
        forall|i: int| 0 <= i < r@.len() ==> m@.contains_pair((#[trigger] r@[i]).0, r@[i].1),
        forall|ks: String, vs: String|
            #[trigger] m@.contains_pair(ks, vs) ==> exists|i: int|
                0 <= i < r@.len() && #[trigger] r@[i] == (ks, vs),
{
    m.iter().map(|(k, v)| (k.clone(), v.clone())).collect()
}

/// A pair with this key and value stands somewhere in `entries`.
pub open spec fn entry_in(entries: Seq<(String, String)>, k: Seq<char>, v: Seq<char>) -> bool {
    exists|i: int| 0 <= i < entries.len() && (#[trigger] entries[i]).0@ == k && entries[i].1@ == v
}

/// A pair with this key and value stands in the configuration map.
pub open spec fn conf_entry_in(conf: Map<String, String>, k: Seq<char>, v: Seq<char>) -> bool {
    exists|ks: String, vs: String| #[trigger] conf.contains_pair(ks, vs) && ks@ == k && vs@ == v
}

/// The pair this key and value make is what the effective connect
/// configuration holds: the supplied map's pairs, with the broker-address
/// override — when one is given — replacing any `bootstrap.servers` entry.
pub open spec fn effective_entry(
    conf: Map<String, String>,
    broker_override: Option<Seq<char>>,
    k: Seq<char>,
    v: Seq<char>,
) -> bool {
    match broker_override {
        Some(b) => (k == "bootstrap.servers"@ && v == b) || (k != "bootstrap.servers"@
            && conf_entry_in(conf, k, v)),
        None => conf_entry_in(conf, k, v),
    }
}

/// Build the client configuration the engine connects with: the supplied
/// parameters, with the broker-address override — when one is given —
/// taking precedence over any supplied `bootstrap.servers` value.
pub fn build_config(entries: &Vec<(String, String)>, broker_override: Option<&str>) -> (c:
    ClientConfig)
    requires
        forall|i: int, j: int|
            0 <= i < j < entries@.len() ==> (#[trigger] entries@[i]).0@ != (
            #[trigger] entries@[j]).0@,
    ensures
        forall|k: Seq<char>, v: Seq<char>|
            #[trigger] config_entries(c).contains_pair(k, v) <==> (match broker_override {
                Some(b) => (k == "bootstrap.servers"@ && v == b@) || (k != "bootstrap.servers"@
                    && entry_in(entries@, k, v)),
                None => entry_in(entries@, k, v),
            }),
{
    let mut c = new_client_config();
    let mut idx: usize = 0;
    while idx < entries.len()
        invariant
            idx <= entries@.len(),
            forall|i: int, j: int|
                0 <= i < j < entries@.len() ==> (#[trigger] entries@[i]).0@ != (
                #[trigger] entries@[j]).0@,
            forall|k: Seq<char>, v: Seq<char>|
                #[trigger] config_entries(c).contains_pair(k, v) <==> entry_in(
                    entries@.take(idx as int),
                    k,
                    v,
                ),
        decreases entries@.len() - idx,
    {
        let ghost pre = config_entries(c);
        let ghost s_pre = entries@.take(idx as int);
        let ghost s_post = entries@.take(idx as int + 1);
        config_set(&mut c, entries[idx].0.as_str(), entries[idx].1.as_str());
        proof {
            let key = entries@[idx as int].0@;
            let val = entries@[idx as int].1@;
            assert(s_post[idx as int] == entries@[idx as int]);
            assert forall|k: Seq<char>, v: Seq<char>| #[trigger] config_entries(c).contains_pair(
                k,
                v,
            ) <==> entry_in(s_post, k, v) by {
                if config_entries(c).contains_pair(k, v) {
                    if k == key {
                        assert(v == val);
                        assert(s_post[idx as int].0@ == k && s_post[idx as int].1@ == v);
                        assert(entry_in(s_post, k, v));
                    } else {
                        assert(pre.contains_pair(k, v));
                        assert(entry_in(s_pre, k, v));
                        let i0 = choose|i: int|
                            0 <= i < s_pre.len() && (#[trigger] s_pre[i]).0@ == k && s_pre[i].1@
                                == v;
                        assert(s_pre[i0] == entries@[i0]);
                        assert(s_post[i0] == entries@[i0]);
                        assert(entry_in(s_post, k, v));
                    }
                }
                if entry_in(s_post, k, v) {
                    let i0 = choose|i: int|
                        0 <= i < s_post.len() && (#[trigger] s_post[i]).0@ == k && s_post[i].1@
                            == v;
                    assert(s_post[i0] == entries@[i0]);
                    if i0 == idx as int {
                        assert(k == key && v == val);
                        assert(config_entries(c).contains_pair(k, v));
                    } else {
                        assert(0 <= i0 < idx as int);
                        assert(s_pre[i0] == entries@[i0]);
                        assert(entry_in(s_pre, k, v));
                        assert(pre.contains_pair(k, v));
                        if k == key {
                            assert((entries@[i0]).0@ == (entries@[idx as int]).0@);
                            assert(false);
                        }
                        assert(config_entries(c).contains_pair(k, v));
                    }
                }
            }
        }
        idx = idx + 1;
    }
    proof {
        assert(entries@.take(entries@.len() as int) =~= entries@);
    }
    match broker_override {
        Some(b) => {
            let ghost pre = config_entries(c);
            config_set(&mut c, "bootstrap.servers", b);
            proof {
                assert forall|k: Seq<char>, v: Seq<char>| #[trigger] config_entries(
                    c,
                ).contains_pair(k, v) <==> ((k == "bootstrap.servers"@ && v == b@) || (k
                    != "bootstrap.servers"@ && entry_in(entries@, k, v))) by {
                    if k != "bootstrap.servers"@ {
                        assert(config_entries(c).contains_pair(k, v) <==> pre.contains_pair(k, v));
                    }
                }
            }
            c
        },
        None => c,
    }
}

// ---------------------------------------------------------------------------
// Broker error descriptions
// ---------------------------------------------------------------------------

/// The human-readable description of a broker error code, as the client
/// library renders it: the code's name followed by librdkafka's static
/// description — a fixed function of the code alone.
pub uninterp spec fn rd_desc_of(err: RDKafkaErrorCode) -> Seq<char>;

/// Relies on the `Display` impl of `RDKafkaErrorCode`: renders the code's
/// debug name plus librdkafka's static description string, a deterministic
/// function of the code.
#[verifier::external_body]
fn rd_error_description(err: RDKafkaErrorCode) -> (r: String)
    ensures
        r@ == rd_desc_of(err),
{
    format!("{}", err)
}

/// Relies on the variants of `KafkaError`: picks out the broker-reported
/// production error code, if this error is one.
#[verifier::external_body]
fn production_error_code(e: &KafkaError) -> (r: Option<RDKafkaErrorCode>) {
    match e {
        KafkaError::MessageProduction(code) => Some(*code),
        _ => None,
    }
}

/// The metric-name component for a broker-reported production error: the
/// normalized form of the code's human-readable description. Total and
/// deterministic: the description is a fixed function of the code, and the
/// result is exactly its normalization.
pub fn metric_name_for(err: RDKafkaErrorCode) -> (r: String)
    ensures
        r@ == normalize_spec(rd_desc_of(err)),
        normalized_form(r@),
{
    let desc = rd_error_description(err);
    let r = normalize_metric_name(desc.as_str());
    proof {
        lemma_normalize_normalized(desc@);
    }
    r
}

// ---------------------------------------------------------------------------
// Delivery-outcome accounting
// ---------------------------------------------------------------------------

/// Counter incremented on a successful delivery.
pub open spec fn delivered_counter_name() -> Seq<char> {
    "kafka.submitted"@
}

/// Counter incremented on a failed delivery: namespaced by the normalized
/// error description when the broker reported a production error, generic
/// otherwise.
pub open spec fn error_counter_name(desc: Option<Seq<char>>) -> Seq<char> {
    match desc {
        Some(d) => "kafka.producer.error."@ + normalize_spec(d),
        None => "kafka.producer.error.generic"@,
    }
}

/// No failed delivery is ever counted as delivered: an error counter's name
/// never equals the delivered counter's.
pub proof fn lemma_error_counter_is_not_delivered(desc: Option<Seq<char>>)
    ensures
        error_counter_name(desc) != delivered_counter_name(),
{
    reveal_strlit("kafka.submitted");
    reveal_strlit("kafka.producer.error.");
    reveal_strlit("kafka.producer.error.generic");
    assert(delivered_counter_name().len() == 15);
    match desc {
        Some(d) => {
            assert(error_counter_name(desc).len() >= 21);
            assert(error_counter_name(desc).len() != delivered_counter_name().len());
        },
        None => {
            assert(error_counter_name(desc).len() == 28);
        },
    }
}

/// The metrics consequence of one delivery outcome: exactly one counter
/// increment (the one named here), and a timer sample exactly when the
/// delivery succeeded.
pub struct DeliveryMetrics {
    pub counter: String,
    pub timer_sample: bool,
}

/// Decide the metrics for one delivery outcome. A successful delivery counts
/// one `delivered`-class increment and one timer sample; a failed delivery
/// counts one error increment — named by the normalized broker description
/// when there is one — and no timer sample.
pub fn plan_for_outcome(success: bool, error_desc: Option<&str>) -> (p: DeliveryMetrics)
    ensures
        p.timer_sample == success,
        success ==> p.counter@ == delivered_counter_name(),
        !success ==> p.counter@ == error_counter_name(
            match error_desc {
                Some(d) => Some(d@),
                None => None,
            },
        ),
{
    if success {
        DeliveryMetrics { counter: "kafka.submitted".to_owned(), timer_sample: true }
    } else {
        match error_desc {
            Some(d) => {
                let mut c = "kafka.producer.error.".to_owned();
                let tail = normalize_metric_name(d);
                c.append(tail.as_str());
                DeliveryMetrics { counter: c, timer_sample: false }
            },
            None => {
                DeliveryMetrics {
                    counter: "kafka.producer.error.generic".to_owned(),
                    timer_sample: false,
                }
            },
        }
    }
}

/// Record one failed delivery on the metrics sink, as [`plan_for_outcome`]
/// decides it: exactly one error-counter increment, no timer sample.
pub fn record_failure(metrics: &Arc<AtomicBucket>, e: &KafkaError) {
    let desc: Option<String> = match production_error_code(e) {
        Some(code) => Some(rd_error_description(code)),
        None => None,
    };
    let plan = plan_for_outcome(
        false,
        match &desc {
            Some(d) => Some(d.as_str()),
            None => None,
        },
    );
    count_one(metrics, plan.counter.as_str());
}

/// Record a delivery failure that carries no broker error on the metrics
/// sink: one generic error-counter increment.
pub fn record_failure_generic(metrics: &Arc<AtomicBucket>) {
    let plan = plan_for_outcome(false, None);
    count_one(metrics, plan.counter.as_str());
}

/// Record the result of one delivery future on the metrics sink, as
/// [`plan_for_outcome`] decides it: on success the timer sample and one
/// `delivered`-class increment; on any failure — broker-reported or the
/// future cancelled — exactly one error-counter increment.
pub fn record_outcome(
    metrics: &Arc<AtomicBucket>,
    timer: Timer,
    handle: TimeHandle,
    res: Result<Result<(i32, i64), (KafkaError, OwnedMessage)>, Canceled>,
) {
    match res {
        Ok(Ok(_)) => {
            let plan = plan_for_outcome(true, None);
            if plan.timer_sample {
                stop_timer(&timer, handle);
            }
            count_one(metrics, plan.counter.as_str());
        },
        Ok(Err((e, _))) => {
            record_failure(metrics, &e);
        },
        Err(_) => {
            record_failure_generic(metrics);
        },
    }
}

// ---------------------------------------------------------------------------
// Connecting wrappers
// ---------------------------------------------------------------------------

/// The configuration parameters the metadata probe was built with, which
/// its reachability check runs against.
pub uninterp spec fn probe_config(p: MetadataProbe) -> Map<Seq<char>, Seq<char>>;

/// Relies on `ClientConfig::create` for `BaseConsumer`: builds a consumer
/// from exactly these parameters, or fails on an invalid parameter.
#[verifier::external_body]
fn create_metadata_probe(c: &ClientConfig) -> (r: Option<MetadataProbe>)
    ensures
        r matches Some(p) ==> probe_config(p) == config_entries(*c),
{
    match c.create::<BaseConsumer>() {
        Ok(inner) => Some(MetadataProbe { inner }),
        Err(_) => None,
    }
}

/// Relies on `Consumer::fetch_metadata`: a blocking metadata round-trip
/// against the configured brokers, bounded by the timeout; success means a
/// broker answered within it.
#[verifier::external_body]
fn broker_reachable(probe: &MetadataProbe, timeout_ms: u64) -> (r: bool) {
    probe.inner.fetch_metadata(None, std::time::Duration::from_millis(timeout_ms)).is_ok()
}

/// The configuration parameters the production client handle was built
/// with, which govern every send it makes.
pub uninterp spec fn producer_config(p: BrokerProducer) -> Map<Seq<char>, Seq<char>>;

/// Relies on `ClientConfig::create` for `FutureProducer`: builds the
/// production client handle from exactly these parameters, or fails on an
/// invalid parameter.
#[verifier::external_body]
fn create_producer(c: &ClientConfig) -> (r: Option<BrokerProducer>)
    ensures
        r matches Some(p) ==> producer_config(p) == config_entries(*c),
{
    match c.create() {
        Ok(inner) => Some(BrokerProducer { inner }),
        Err(_) => None,
    }
}

/// Relies on `ThreadPool::new`: a pool for resolving delivery futures off
/// the delivery loop, so collecting one send's outcome never blocks
/// submission of the next.
#[verifier::external_body]
fn new_thread_pool() -> (r: Option<ThreadPool>) {
    ThreadPool::new().ok()
}

/// What one submission attempt came to: queued (with the broker client's
/// delivery future), refused because the client's outbound queue is full, or
/// rejected outright.
pub enum SendAttempt {
    Queued(DeliveryFuture),
    Full,
    Rejected(KafkaError),
}

/// The topic and payload of the record whose delivery this future reports,
/// as submitted to the broker client; such a record carries no key.
pub uninterp spec fn submitted_record(f: DeliveryFuture) -> (Seq<char>, Seq<char>);

/// Relies on `FutureProducer::send_result`: queues a record holding exactly
/// the message's topic and payload and no key on the broker client's
/// outbound queue, unless that queue is full or the record is rejected
/// outright. The topic must be NUL-free: the client passes it on as a C
/// string and would panic otherwise.
#[verifier::external_body]
fn try_send_record(producer: &BrokerProducer, msg: &KafkaMessage) -> (r: SendAttempt)
    requires
        nul_free(msg@.topic),
    ensures
        r matches SendAttempt::Queued(f) ==> submitted_record(f) == (msg@.topic, msg@.msg),
{
    let record = FutureRecord::<String, String>::to(&msg.topic).payload(&msg.msg);
    match producer.inner.send_result(record) {
        Ok(fut) => SendAttempt::Queued(fut),
        Err((KafkaError::MessageProduction(RDKafkaErrorCode::QueueFull), _)) => SendAttempt::Full,
        Err((e, _)) => SendAttempt::Rejected(e),
    }
}

/// Relies on `ThreadPool::spawn_ok`: resolves the delivery future off the
/// delivery loop and hands its result to `record_outcome`, which does all
/// the accounting.
#[verifier::external_body]
fn attach_outcome(
    pool: &ThreadPool,
    metrics: &Arc<AtomicBucket>,
    timer: &Timer,
    handle: TimeHandle,
    fut: DeliveryFuture,
) {
    let metrics = metrics.clone();
    let timer = timer.clone();
    pool.spawn_ok(fut.map(move |res| record_outcome(&metrics, timer, handle, res)));
}

/// Relies on `ThreadPool::spawn_ok`: resolves the delivery future with the
/// outcome unobserved.
#[verifier::external_body]
fn attach_forget(pool: &ThreadPool, fut: DeliveryFuture) {
    pool.spawn_ok(fut.map(|_| ()));
}

/// Relies on crossbeam's `after`: receiving on the timer channel returns
/// once the interval has elapsed.
#[verifier::external_body]
fn wait_ms(ms: u64) {
    let _ = crossbeam::channel::after(std::time::Duration::from_millis(ms)).recv();
}

/// The metadata-fetch timeout the engine actually uses: the caller's, or
/// the documented 10-second default when none is given.
pub fn effective_timeout(timeout_ms: Option<u64>) -> (r: u64)
    ensures
        r == (match timeout_ms {
            Some(ms) => ms,
            None => 10000u64,
        }),
{
    match timeout_ms {
        Some(ms) => ms,
        None => 10000,
    }
}

/// Rounds the delivery loop and the submission retry run for: far beyond any
/// process lifetime, while keeping every loop visibly bounded.
pub const LOOP_ROUNDS: u64 = 0xffff_ffff_ffff_ffff;

/// Why the delivery loop returned — it does not, in any real run, except
/// for the fatal first case.
pub enum SendloopExit {
    /// The completion pool could not be created; the loop delivered
    /// nothing, and the process cannot relay. Fatal to the caller.
    NoPool,
    /// The bounded round count ran out.
    RoundsExhausted,
}

// ---------------------------------------------------------------------------
// The engine
// ---------------------------------------------------------------------------

/// The broker egress engine: the relay queue's two endpoints, the optional
/// metrics sink, and — once `connect` has validated broker reachability —
/// the production client handle.
pub struct Kafka {
    producer: Option<BrokerProducer>,
    metrics: Option<Arc<AtomicBucket>>,
    rx: Receiver<KafkaMessage>,
    tx: Sender<KafkaMessage>,
}

impl Kafka {
    /// The engine holds a validated broker connection.
    pub closed spec fn connected(self) -> bool {
        self.producer is Some
    }

    /// The engine reports delivery outcomes to a metrics sink.
    pub closed spec fn has_metrics(self) -> bool {
        self.metrics is Some
    }

    /// Capacity of the relay queue.
    pub closed spec fn buffer_bound(self) -> nat {
        relay_sender_bound(self.tx)
    }

    /// The configuration the retained production client was built with;
    /// meaningful only on a connected engine.
    pub closed spec fn retained_config(self) -> Map<Seq<char>, Seq<char>> {
        match self.producer {
            Some(p) => producer_config(p),
            None => Map::empty(),
        }
    }

    /// The identity of the queue the delivery loop drains.
    pub closed spec fn queue_id(self) -> int {
        receiver_channel(self.rx)
    }

    /// The engine's producer and consumer handles refer to one queue: what
    /// `get_sender` hands out feeds exactly what the delivery loop drains.
    pub closed spec fn queue_consistent(self) -> bool {
        sender_channel(self.tx) == receiver_channel(self.rx)
    }

    /// The relay queue's two endpoints.
    pub closed spec fn endpoints(self) -> (Sender<KafkaMessage>, Receiver<KafkaMessage>) {
        (self.tx, self.rx)
    }

    /// The metrics sink the engine reports on, if any.
    pub closed spec fn sink(self) -> Option<Arc<AtomicBucket>> {
        self.metrics
    }

    /// A fresh, unconnected engine whose relay queue admits at most
    /// `message_max` undelivered messages before enqueues block.
    pub fn new(message_max: usize) -> (k: Kafka)
        ensures
            !k.connected(),
            !k.has_metrics(),
            k.buffer_bound() == message_max,
            k.queue_consistent(),
    {
        let (tx, rx) = relay_channel(message_max);
        Kafka { metrics: None, producer: None, tx, rx }
    }

    /// Give the engine a metrics sink to report delivery outcomes on.
    /// Everything else — the producer and its configuration, the queue's
    /// endpoints — is kept.
    pub fn with_metrics(&mut self, metrics: Arc<AtomicBucket>)
        ensures
            final(self).has_metrics(),
            final(self).sink() == Some(metrics),
            final(self).connected() == old(self).connected(),
            final(self).retained_config() == old(self).retained_config(),
            final(self).buffer_bound() == old(self).buffer_bound(),
            final(self).endpoints() == old(self).endpoints(),
            final(self).queue_id() == old(self).queue_id(),
            final(self).queue_consistent() == old(self).queue_consistent(),
    {
        self.metrics = Some(metrics);
    }

    /// A producer handle onto the relay queue, for connection sessions to
    /// take ownership of: a clone feeding the very queue the delivery loop
    /// drains.
    pub fn get_sender(&self) -> (s: Sender<KafkaMessage>)
        ensures
            relay_sender_bound(s) == self.buffer_bound(),
            self.queue_consistent() ==> sender_channel(s) == self.queue_id(),
    {
        clone_sender(&self.tx)
    }

    /// Drain the relay queue — the one `queue_id` names and `get_sender`'s
    /// clones feed — and deliver each message, forever in any real run.
    /// Must only be entered on a connected engine: running the delivery
    /// loop without a validated producer is a programming error, not a
    /// runtime condition, so the contract rules it out. The only early
    /// return is `SendloopExit::NoPool`, before any message is taken; the
    /// caller must treat it as fatal — a dead delivery loop under a live
    /// accept loop would silently drop everything.
    pub fn sendloop(&self) -> (exit: SendloopExit)
        requires
            self.connected(),
        ensures
            self.connected(),
    {
        let pool = match new_thread_pool() {
            Some(p) => p,
            None => {
                return SendloopExit::NoPool;
            },
        };
        let producer = match &self.producer {
            Some(p) => p,
            None => {
                return SendloopExit::NoPool;
            },
        };
        let mut round: u64 = 0;
        while round < LOOP_ROUNDS
            decreases LOOP_ROUNDS - round,
        {
            // Bounded wait, so the loop re-checks cooperatively rather than
            // blocking indefinitely on an idle queue.
            if let Some(kmsg) = recv_with_timeout(&self.rx, 100) {
                self.deliver(&pool, producer, kmsg);
            }
            round = round + 1;
        }
        SendloopExit::RoundsExhausted
    }

    /// Deliver one message: submit it to the broker client, waiting out a
    /// full outbound queue — the deliberate backpressure that stalls the
    /// delivery loop, and through the relay queue the producers, rather than
    /// buffer without bound — and account for the outcome when the engine
    /// has a metrics sink.
    fn deliver(&self, pool: &ThreadPool, producer: &BrokerProducer, kmsg: KafkaMessage) {
        proof {
            use_type_invariant(&kmsg);
            assert(kmsg@.topic == kmsg.topic@);
        }
        match &self.metrics {
            Some(m) => {
                let (timer, handle) = start_timer(m, "kafka.producer.sent");
                let mut round: u64 = 0;
                while round < LOOP_ROUNDS
                    invariant
                        nul_free(kmsg@.topic),
                    decreases LOOP_ROUNDS - round,
                {
                    match try_send_record(producer, &kmsg) {
                        SendAttempt::Queued(fut) => {
                            attach_outcome(pool, m, &timer, handle, fut);
                            return ;
                        },
                        SendAttempt::Full => {
                            wait_ms(100);
                        },
                        SendAttempt::Rejected(e) => {
                            record_failure(m, &e);
                            return ;
                        },
                    }
                    round = round + 1;
                }
                // Unreached in any real run; counted as a generic failure so
                // no delivery goes unaccounted.
                record_failure_generic(m);
            },
            None => {
                let mut round: u64 = 0;
                while round < LOOP_ROUNDS
                    invariant
                        nul_free(kmsg@.topic),
                    decreases LOOP_ROUNDS - round,
                {
                    match try_send_record(producer, &kmsg) {
                        SendAttempt::Queued(fut) => {
                            attach_forget(pool, fut);
                            return ;
                        },
                        SendAttempt::Full => {
                            wait_ms(100);
                        },
                        SendAttempt::Rejected(_) => {
                            return ;
                        },
                    }
                    round = round + 1;
                }
            },
        }
    }

    /// Validate the configuration and broker reachability, within
    /// `timeout_ms` (10 s if unspecified), by a blocking metadata fetch.
    /// `broker_override` — the runtime broker-address setting, when present —
    /// takes precedence over any `bootstrap.servers` in the supplied map.
    /// Only on success does the engine construct and retain the production
    /// client handle and become connected, and the retained client is built
    /// from exactly the supplied map with the override applied; on failure
    /// the engine is left exactly as it was.
    pub fn connect(
        &mut self,
        rdkafka_conf: &HashMap<String, String>,
        timeout_ms: Option<u64>,
        broker_override: Option<&str>,
    ) -> (ok: bool)
        ensures
            ok ==> final(self).connected(),
            ok ==> forall|k: Seq<char>, v: Seq<char>|
                #[trigger] final(self).retained_config().contains_pair(k, v) <==> effective_entry(
                    rdkafka_conf@,
                    match broker_override {
                        Some(b) => Some(b@),
                        None => None,
                    },
                    k,
                    v,
                ),
            !ok ==> *final(self) == *old(self),
            final(self).has_metrics() == old(self).has_metrics(),
            final(self).sink() == old(self).sink(),
            final(self).buffer_bound() == old(self).buffer_bound(),
            final(self).endpoints() == old(self).endpoints(),
            final(self).queue_id() == old(self).queue_id(),
            final(self).queue_consistent() == old(self).queue_consistent(),
    {
        let entries = hash_map_entries(rdkafka_conf);
        let rd_conf = build_config(&entries, broker_override);
        proof {
            assert forall|k: Seq<char>, v: Seq<char>| #[trigger] entry_in(entries@, k, v)
                <==> conf_entry_in(rdkafka_conf@, k, v) by {
                if entry_in(entries@, k, v) {
                    let i0 = choose|i: int|
                        0 <= i < entries@.len() && (#[trigger] entries@[i]).0@ == k
                            && entries@[i].1@ == v;
                    assert(rdkafka_conf@.contains_pair(entries@[i0].0, entries@[i0].1));
                    assert(conf_entry_in(rdkafka_conf@, k, v));
                }
                if conf_entry_in(rdkafka_conf@, k, v) {
                    let (ks, vs): (String, String) = choose|ks: String, vs: String|
                        #[trigger] rdkafka_conf@.contains_pair(ks, vs) && ks@ == k && vs@ == v;
                    let i0 = choose|i: int|
                        0 <= i < entries@.len() && #[trigger] entries@[i] == (ks, vs);
                    assert((entries@[i0]).0@ == k && (entries@[i0]).1@ == v);
                    assert(entry_in(entries@, k, v));
                }
            }
        }
        let probe = match create_metadata_probe(&rd_conf) {
            Some(p) => p,
            None => {
                return false;
            },
        };
        let timeout = effective_timeout(timeout_ms);
        if broker_reachable(&probe, timeout) {
            match create_producer(&rd_conf) {
                Some(p) => {
                    proof {
                        assert forall|k: Seq<char>, v: Seq<char>| #[trigger] producer_config(
                            p,
                        ).contains_pair(k, v) <==> effective_entry(
                            rdkafka_conf@,
                            match broker_override {
                                Some(b) => Some(b@),
                                None => None,
                            },
                            k,
                            v,
                        ) by {
                            assert(producer_config(p).contains_pair(k, v) == config_entries(
                                rd_conf,
                            ).contains_pair(k, v));
                            assert(entry_in(entries@, k, v) <==> conf_entry_in(
                                rdkafka_conf@,
                                k,
                                v,
                            ));
                        }
                    }
                    self.producer = Some(p);
                    true
                },
                None => false,
            }
        } else {
            false
        }
    }
}

} // verus!
