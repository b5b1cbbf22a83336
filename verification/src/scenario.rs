//! The scenario data model, and the builder that turns command-line
//! parameters into one publisher (with one source per session) and one
//! subscriber (with one filtered counter per session).

use vstd::prelude::*;

use crate::analyzers::Analyzer;
use crate::analyzers::CountingAnalyzer;
use crate::analyzers::SessionIdFilter;
use crate::analyzers::session_prefix;
use crate::context::OverlayContext;
use crate::context::template_src;
use crate::errors::MqttVerifyError;
use crate::expr::env_of_pairs;
use crate::expr::expr_parses;
use crate::source::VerifiableSource;
use crate::text::dec_str;
use crate::text::dec_string;
use crate::text::push_dec;
use std::rc::Rc;

verus! {

/// Connection policy of one actor: the initial connect budget, and the
/// automatic-reconnect interval if reconnection is wanted (absent: a lost
/// connection is terminal). Both in microseconds.
pub struct ConnectOptions {
    pub connect_timeout: u64,
    pub reconnect_interval: Option<u64>,
}

/// One publishing actor: the broker it talks to, its connection policy, and
/// the sources whose messages it publishes.
pub struct Publisher {
    pub client_uri: String,
    pub connect_options: ConnectOptions,
    pub sources: Vec<VerifiableSource>,
}

/// One subscribing actor: the broker it talks to, its connection policy, the
/// topics it subscribes to, and its analyzers (only the first is consulted).
pub struct Subscriber {
    pub client_uri: String,
    pub connect_options: ConnectOptions,
    pub topics: Vec<String>,
    pub sinks: Vec<Analyzer>,
}

/// A bundle of publishers and subscribers executed concurrently as one test.
pub struct Scenario {
    pub publishers: Vec<Publisher>,
    pub subscribers: Vec<Subscriber>,
}

impl Publisher {
    /// The initial connect budget in microseconds.
    pub fn initial_timeout(&self) -> (r: u64)
        ensures
            r == self.connect_options.connect_timeout,
    {
        self.connect_options.connect_timeout
    }
}

impl Subscriber {
    /// The initial connect budget in microseconds.
    pub fn initial_timeout(&self) -> (r: u64)
        ensures
            r == self.connect_options.connect_timeout,
    {
        self.connect_options.connect_timeout
    }
}

/// The position of the first `c` in `s` at or after `from`.
pub open spec fn find_char(s: Seq<char>, c: char, from: nat) -> Option<nat>
    decreases s.len() - from,
{
    if from >= s.len() {
        None
    } else if s[from as int] == c {
        Some(from)
    } else {
        find_char(s, c, from + 1)
    }
}

/// Splits a `--parameter` entry at its first `=` into key and value; an
/// entry without `=` is a malformed parameter.
pub fn split_on_equal(input: &str) -> (r: Result<(String, String), MqttVerifyError>)
    ensures
        (match r {
            Ok((k, v)) => (match find_char(input@, '=', 0) {
                Some(i) => k@ == input@.subrange(0, i as int) && v@ == input@.subrange(
                    i as int + 1,
                    input@.len() as int,
                ),
                None => false,
            }),
            Err(MqttVerifyError::MalformedParameter { input: s }) => s@ == input@ && find_char(
                input@,
                '=',
                0,
            ) is None,
            Err(_) => false,
        }),
{
    let n = input.unicode_len();
    let mut i: usize = 0;
    while i < n
        invariant
            i <= n,
            n == input@.len(),
            find_char(input@, '=', 0) == find_char(input@, '=', i as nat),
        decreases n - i,
    {
        if input.get_char(i) == '=' {
            let key = input.substring_char(0, i).to_owned();
            let val = input.substring_char(i + 1, n).to_owned();
            return Ok((key, val));
        }
        i += 1;
    }
    Err(MqttVerifyError::MalformedParameter { input: input.to_owned() })
}

/// The scenario parameters the command line provides, with durations already
/// in microseconds and the per-source message count and tick interval
/// already resolved from the requested frequency and session length.
pub struct Opt {
    pub publish_uri: String,
    pub publishers: u64,
    pub total_count: usize,
    pub tick_interval_us: u64,
    pub topic: String,
    pub subscribe_uri: String,
    pub initial_timeout_us: u64,
    pub reconnect_interval_us: Option<u64>,
    pub parameters: Vec<(String, String)>,
}

/// The bindings the source numbered `n` (1-based) expands its topic in: the
/// seeded parameters, overridden by `publisher` bound to `"p-<n>"`.
pub open spec fn cli_env(opt: Opt, n: nat) -> Map<Seq<char>, Seq<char>> {
    env_of_pairs(opt.parameters.deep_view()).insert("publisher"@, "p-"@ + dec_str(n))
}

/// What the source numbered `j` (0-based) of the built scenario holds.
pub open spec fn cli_source_ok(s: VerifiableSource, opt: Opt, j: int) -> bool {
    &&& s.id@ == dec_str((j + 1) as nat)
    &&& s.seq_no == 0
    &&& s.total_count == opt.total_count
    &&& s.tick_interval_us == opt.tick_interval_us
    &&& template_src(opt.topic@) == Some(s.topic.value@)
    &&& s.topic.context.env() == cli_env(opt, (j + 1) as nat)
}

/// What the sink numbered `j` (0-based) of the built scenario holds: a
/// session-id filter for session `j + 1` around a fresh counter.
pub open spec fn cli_sink_ok(a: Analyzer, opt: Opt, j: int) -> bool {
    match a {
        Analyzer::Filter(f) => f.id@ == session_prefix(dec_str((j + 1) as nat)) && *f.child
            == Analyzer::Counting(CountingAnalyzer { count: 0, expected_total: opt.total_count }),
        Analyzer::Counting(_) => false,
    }
}

/// What the built publisher holds.
pub open spec fn cli_publisher_ok(p: Publisher, opt: Opt) -> bool {
    &&& p.client_uri@ == opt.publish_uri@
    &&& p.connect_options.connect_timeout == opt.initial_timeout_us
    &&& p.connect_options.reconnect_interval == opt.reconnect_interval_us
    &&& p.sources.len() == opt.publishers
    &&& (forall|j: int| 0 <= j < opt.publishers ==> cli_source_ok(#[trigger] p.sources[j], opt, j))
}

/// What the built subscriber holds.
pub open spec fn cli_subscriber_ok(s: Subscriber, opt: Opt) -> bool {
    &&& s.client_uri@ == opt.subscribe_uri@
    &&& s.connect_options.connect_timeout == opt.initial_timeout_us
    &&& s.connect_options.reconnect_interval == opt.reconnect_interval_us
    &&& s.topics.deep_view() == seq![opt.topic@]
    &&& s.sinks.len() == opt.publishers
    &&& (forall|j: int| 0 <= j < opt.publishers ==> cli_sink_ok(#[trigger] s.sinks[j], opt, j))
}

/// Builds the scenario the command line asks for: one publisher with
/// `opt.publishers` sources (session ids `"1"`, `"2"`, …, topics expanded
/// with `publisher` bound to `"p-<n>"` over the seeded parameters), and one
/// subscriber on the raw topic whose sinks filter each session into its own
/// counter. Fails exactly when the topic template itself is malformed (and a
/// source actually has to be built).
pub fn make_cli_scenario(opt: &Opt) -> (r: Result<Scenario, MqttVerifyError>)
    ensures
        (match r {
            Ok(s) => {
                &&& (opt.publishers > 0 ==> (match template_src(opt.topic@) {
                    Some(src) => expr_parses(src),
                    None => false,
                }))
                &&& s.publishers.len() == 1
                &&& s.subscribers.len() == 1
                &&& cli_publisher_ok(s.publishers[0], *opt)
                &&& cli_subscriber_ok(s.subscribers[0], *opt)
            },
            Err(MqttVerifyError::MalformedValue { value: v }) => opt.publishers > 0 && v@
                == opt.topic@ && template_src(opt.topic@) is None,
            Err(MqttVerifyError::MalformedExpression { value: v, source: _ }) => opt.publishers > 0
                && v@ == opt.topic@ && (match template_src(opt.topic@) {
                Some(src) => !expr_parses(src),
                None => false,
            }),
            Err(_) => false,
        }),
{
    let mut root = OverlayContext::root();
    let mut k: usize = 0;
    while k < opt.parameters.len()
        invariant
            k <= opt.parameters.len(),
            root.env() == env_of_pairs(opt.parameters.deep_view().take(k as int)),
        decreases opt.parameters.len() - k,
    {
        let ghost prior = opt.parameters.deep_view().take(k as int);
        root.insert(opt.parameters[k].0.clone(), opt.parameters[k].1.clone());
        proof {
            assert(opt.parameters.deep_view().take(k + 1).drop_last() =~= prior);
        }
        k += 1;
    }
    proof {
        assert(opt.parameters.deep_view().take(opt.parameters.len() as int)
            =~= opt.parameters.deep_view());
    }
    let root_rc = Rc::new(root);
    let mut sources: Vec<VerifiableSource> = Vec::new();
    let mut sinks: Vec<Analyzer> = Vec::new();
    let mut i: u64 = 0;
    while i < opt.publishers
        invariant
            0 <= i <= opt.publishers,
            root_rc.env() == env_of_pairs(opt.parameters.deep_view()),
            sources.len() == i,
            sinks.len() == i,
            i > 0 ==> (match template_src(opt.topic@) {
                Some(src) => expr_parses(src),
                None => false,
            }),
            forall|j: int| 0 <= j < i ==> cli_source_ok(#[trigger] sources[j], *opt, j),
            forall|j: int| 0 <= j < i ==> cli_sink_ok(#[trigger] sinks[j], *opt, j),
        decreases opt.publishers - i,
    {
        let n = i + 1;
        let mut context = OverlayContext::subcontext(root_rc.clone());
        let mut pname = String::new();
        pname.append("p-");
        push_dec(&mut pname, n);
        proof {
            reveal_strlit("p-");
            assert(pname@ == "p-"@ + dec_str(n as nat));
        }
        context.insert("publisher".to_owned(), pname);
        let topic_value = (match OverlayContext::value_for(Rc::new(context), opt.topic.as_str()) {
            Ok(cv) => cv,
            Err(e) => {
                return Err(e);
            },
        });
        let id = dec_string(n);
        sources.push(
            VerifiableSource::new(id.clone(), topic_value, opt.total_count, opt.tick_interval_us),
        );
        sinks.push(
            Analyzer::Filter(
                SessionIdFilter::new(
                    id,
                    Box::new(Analyzer::Counting(CountingAnalyzer::new(opt.total_count))),
                ),
            ),
        );
        i = n;
    }
    let publisher = Publisher {
        client_uri: opt.publish_uri.clone(),
        connect_options: ConnectOptions {
            connect_timeout: opt.initial_timeout_us,
            reconnect_interval: opt.reconnect_interval_us,
        },
        sources,
    };
    let subscriber = Subscriber {
        client_uri: opt.subscribe_uri.clone(),
        connect_options: ConnectOptions {
            connect_timeout: opt.initial_timeout_us,
            reconnect_interval: opt.reconnect_interval_us,
        },
        topics: vec![opt.topic.clone()],
        sinks,
    };
    proof {
        assert(subscriber.topics.deep_view() =~= seq![opt.topic@]);
    }
    Ok(Scenario { publishers: vec![publisher], subscribers: vec![subscriber] })
}

} // verus!
