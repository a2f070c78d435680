//! The event subscriptions of the adapter: which filters it subscribes
//! with, and which protocol events it takes from what a subscription
//! delivers.

use vstd::prelude::*;
use vstd::string::*;
use crate::error::Error;
use crate::event::{
    event_of, events_view, parse_event, raw_events_view, EventBody, IbcEvent, IbcEventView, Module,
    RawEvent, RawEventView,
};
use crate::height::Height;
use crate::text::str_eq;

verus! {

/// A text with every `\` and every `'` preceded by a `\`.
pub open spec fn escaped(s: Seq<char>) -> Seq<char>
    decreases s.len(),
{
    if s.len() == 0 {
        Seq::empty()
    } else if s.last() == '\\' || s.last() == '\'' {
        escaped(s.drop_last()) + seq!['\\', s.last()]
    } else {
        escaped(s.drop_last()).push(s.last())
    }
}

/// The filter that asks for events in which `key` has the text `value`:
/// the key, ` = `, and the escaped value between single quotes.
pub open spec fn eq_filter_text(key: Seq<char>, value: Seq<char>) -> Seq<char> {
    key + " = "@ + seq!['\''] + escaped(value) + seq!['\'']
}

/// The text of `Query::eq(key, value)` of the `tendermint-rpc` crate, as its
/// `Display` writes it. Not proved: that the crate writes the key, ` = `,
/// and the value between single quotes with `\` and `'` escaped by a `\`.
#[verifier::external_body]
pub(crate) fn rpc_eq_filter(key: &str, value: &str) -> (text: String)
    ensures
        text@ == eq_filter_text(key@, value@),
{
    tendermint_rpc::query::Query::eq(key, value).to_string()
}

/// The text of the `tendermint-rpc` query for new blocks,
/// `Query::from(EventType::NewBlock)`, as its `Display` writes it. Not
/// proved: that the text is `tm.event = 'NewBlock'`.
#[verifier::external_body]
fn rpc_new_block_filter() -> (text: String)
    ensures
        text@ == "tm.event = 'NewBlock'"@,
{
    tendermint_rpc::query::Query::from(tendermint_rpc::query::EventType::NewBlock).to_string()
}

/// The interest groups of the adapter. It holds one subscription for each.
#[derive(Clone, Copy, Debug, PartialEq, Eq, Structural)]
pub enum SubscriptionTag {
    /// Notifications of new blocks.
    NewBlock,
    /// Transactions with an event of the client module.
    Client,
    /// Transactions with an event of the connection module.
    Connection,
    /// Transactions with an event of the channel module.
    Channel,
}

impl SubscriptionTag {
    /// The module whose transactions the subscription asks for; `None` for
    /// the subscription to new blocks.
    pub open spec fn module_spec(self) -> Option<Module> {
        match self {
            SubscriptionTag::NewBlock => None,
            SubscriptionTag::Client => Some(Module::Client),
            SubscriptionTag::Connection => Some(Module::Connection),
            SubscriptionTag::Channel => Some(Module::Channel),
        }
    }

    /// The module whose transactions the subscription asks for; `None` for
    /// the subscription to new blocks.
    #[verifier::when_used_as_spec(module_spec)]
    pub fn module(self) -> (m: Option<Module>)
        ensures
            m == self.module_spec(),
    {
        match self {
            SubscriptionTag::NewBlock => None,
            SubscriptionTag::Client => Some(Module::Client),
            SubscriptionTag::Connection => Some(Module::Connection),
            SubscriptionTag::Channel => Some(Module::Channel),
        }
    }

    /// The filter of the subscription.
    pub open spec fn filter_text(self) -> Seq<char> {
        match self {
            SubscriptionTag::NewBlock => "tm.event = 'NewBlock'"@,
            SubscriptionTag::Client => eq_filter_text("message.module"@, "ibc_client"@),
            SubscriptionTag::Connection => eq_filter_text("message.module"@, "ibc_connection"@),
            SubscriptionTag::Channel => eq_filter_text("message.module"@, "ibc_channel"@),
        }
    }

    /// The filter to subscribe with.
    pub fn filter(self) -> (text: String)
        ensures
            text@ == self.filter_text(),
    {
        match self {
            SubscriptionTag::NewBlock => rpc_new_block_filter(),
            SubscriptionTag::Client => rpc_eq_filter("message.module", "ibc_client"),
            SubscriptionTag::Connection => rpc_eq_filter("message.module", "ibc_connection"),
            SubscriptionTag::Channel => rpc_eq_filter("message.module", "ibc_channel"),
        }
    }

    /// The subscription that a filter belongs to: the first of the four, in
    /// the order of the variants, whose filter is the given text.
    pub open spec fn of_filter_text(query: Seq<char>) -> Option<SubscriptionTag> {
        if query == SubscriptionTag::NewBlock.filter_text() {
            Some(SubscriptionTag::NewBlock)
        } else if query == SubscriptionTag::Client.filter_text() {
            Some(SubscriptionTag::Client)
        } else if query == SubscriptionTag::Connection.filter_text() {
            Some(SubscriptionTag::Connection)
        } else if query == SubscriptionTag::Channel.filter_text() {
            Some(SubscriptionTag::Channel)
        } else {
            None
        }
    }

    /// Finds the subscription that delivered a message, by the filter that
    /// the message names. `None` where the filter is none of the adapter's.
    pub fn of_filter(query: &str) -> (r: Option<SubscriptionTag>)
        ensures
            r == Self::of_filter_text(query@),
    {
        if str_eq(query, SubscriptionTag::NewBlock.filter().as_str()) {
            Some(SubscriptionTag::NewBlock)
        } else if str_eq(query, SubscriptionTag::Client.filter().as_str()) {
            Some(SubscriptionTag::Client)
        } else if str_eq(query, SubscriptionTag::Connection.filter().as_str()) {
            Some(SubscriptionTag::Connection)
        } else if str_eq(query, SubscriptionTag::Channel.filter().as_str()) {
            Some(SubscriptionTag::Channel)
        } else {
            None
        }
    }
}

/// The filters of the four subscriptions that the adapter opens, in the
/// order in which it opens them.
pub fn subscription_filters() -> (filters: Vec<String>)
    ensures
        filters@.len() == 4,
        filters@[0]@ == SubscriptionTag::NewBlock.filter_text(),
        filters@[1]@ == SubscriptionTag::Client.filter_text(),
        filters@[2]@ == SubscriptionTag::Connection.filter_text(),
        filters@[3]@ == SubscriptionTag::Channel.filter_text(),
{
    let mut filters: Vec<String> = Vec::new();
    filters.push(SubscriptionTag::NewBlock.filter());
    filters.push(SubscriptionTag::Client.filter());
    filters.push(SubscriptionTag::Connection.filter());
    filters.push(SubscriptionTag::Channel.filter());
    filters
}

/// What a subscription delivers.
#[derive(Debug, PartialEq, Eq)]
pub enum EventPayload {
    /// A block was committed at this block height.
    NewBlock { height: u64 },
    /// A transaction was executed at this block height, with these events.
    Tx { height: u64, events: Vec<RawEvent> },
    /// Anything else.
    Other,
}

/// The content of an [`EventPayload`].
pub enum EventPayloadView {
    NewBlock { height: u64 },
    Tx { height: u64, events: Seq<RawEventView> },
    Other,
}

impl View for EventPayload {
    type V = EventPayloadView;

    open spec fn view(&self) -> EventPayloadView {
        match *self {
            EventPayload::NewBlock { height } => EventPayloadView::NewBlock { height },
            EventPayload::Tx { height, events } => EventPayloadView::Tx {
                height,
                events: raw_events_view(events@),
            },
            EventPayload::Other => EventPayloadView::Other,
        }
    }
}

/// The protocol event that a subscription for `module` keeps of a raw
/// event: the event must be readable and must belong to that module.
pub open spec fn kept_event(module: Module, height: Height, raw: RawEventView) -> Option<
    IbcEventView,
> {
    match event_of(height, raw) {
        Some(e) => if e.module() == Some(module) {
            Some(e)
        } else {
            None
        },
        None => None,
    }
}

/// The protocol events that a subscription for `module` keeps of the raw
/// events of one transaction, in the order of the raw events.
pub open spec fn kept_events(module: Module, height: Height, raws: Seq<RawEventView>) -> Seq<
    IbcEventView,
>
    decreases raws.len(),
{
    if raws.len() == 0 {
        Seq::empty()
    } else {
        match kept_event(module, height, raws.last()) {
            Some(e) => kept_events(module, height, raws.drop_last()).push(e),
            None => kept_events(module, height, raws.drop_last()),
        }
    }
}

/// The events that the adapter takes from a message, given the subscription
/// that delivered it and the revision number of the chain.
///
/// A new block gives one block event, on the subscription to new blocks
/// only. A transaction gives the events that the subscription's module
/// keeps. Every other combination gives nothing.
pub open spec fn classified(
    tag: Option<SubscriptionTag>,
    revision_number: u64,
    payload: EventPayloadView,
) -> Seq<IbcEventView> {
    match payload {
        EventPayloadView::NewBlock { height } => if tag == Some(SubscriptionTag::NewBlock) {
            seq![
                IbcEventView {
                    kind: None,
                    body: EventBody::Block(Height { revision_number, revision_height: height }),
                },
            ]
        } else {
            Seq::empty()
        },
        EventPayloadView::Tx { height, events } => match tag {
            Some(t) => match t.module_spec() {
                Some(module) => kept_events(
                    module,
                    Height { revision_number, revision_height: height },
                    events,
                ),
                None => Seq::empty(),
            },
            None => Seq::empty(),
        },
        EventPayloadView::Other => Seq::empty(),
    }
}

/// Reads the raw events of one transaction and keeps the protocol events
/// of one module. A raw event that cannot be read is dropped, and so is
/// an event of another module; neither stops the extraction.
pub fn extract_module_events(module: Module, height: Height, raws: &Vec<RawEvent>) -> (out: Vec<
    IbcEvent,
>)
    ensures
        events_view(out@) == kept_events(module, height, raw_events_view(raws@)),
{
    let ghost all = raw_events_view(raws@);
    let mut out: Vec<IbcEvent> = Vec::new();
    let mut i: usize = 0;
    assert(events_view(out@) =~= Seq::<IbcEventView>::empty());
    while i < raws.len()
        invariant
            i <= raws.len(),
            all == raw_events_view(raws@),
            events_view(out@) == kept_events(module, height, all.subrange(0, i as int)),
        decreases raws.len() - i,
    {
        let ghost before = events_view(out@);
        proof {
            let prefix = all.subrange(0, i + 1);
            assert(prefix.last() == raws@[i as int]@);
            assert(prefix.drop_last() =~= all.subrange(0, i as int));
        }
        match parse_event(height, &raws[i]) {
            Some(e) => {
                let keep = match e.module() {
                    Some(m) => m == module,
                    None => false,
                };
                if keep {
                    out.push(e);
                    assert(events_view(out@) =~= before.push(e@));
                }
            },
            None => {},
        }
        i = i + 1;
    }
    assert(all.subrange(0, i as int) =~= all);
    out
}

/// Takes the protocol events from one message of a subscription.
pub fn classify(tag: Option<SubscriptionTag>, revision_number: u64, payload: &EventPayload) -> (out:
    Vec<IbcEvent>)
    ensures
        events_view(out@) == classified(tag, revision_number, payload@),
{
    let mut out: Vec<IbcEvent> = Vec::new();
    match payload {
        EventPayload::NewBlock { height } => {
            let on_blocks = match tag {
                Some(SubscriptionTag::NewBlock) => true,
                _ => false,
            };
            if on_blocks {
                out.push(IbcEvent::NewBlock(Height::new(revision_number, *height)));
            }
            assert(events_view(out@) =~= classified(tag, revision_number, payload@));
            out
        },
        EventPayload::Tx { height, events } => {
            let module = match tag {
                Some(t) => t.module(),
                None => None,
            };
            match module {
                Some(module) => extract_module_events(
                    module,
                    Height::new(revision_number, *height),
                    events,
                ),
                None => {
                    assert(events_view(out@) =~= classified(tag, revision_number, payload@));
                    out
                },
            }
        },
        EventPayload::Other => {
            assert(events_view(out@) =~= classified(tag, revision_number, payload@));
            out
        },
    }
}

/// Every event that a subscription keeps belongs to the module of that
/// subscription, stands at the height of the transaction, and is what one
/// of the raw events says.
pub proof fn lemma_kept_events_belong(module: Module, height: Height, raws: Seq<RawEventView>)
    ensures
        forall|k: int|
            0 <= k < kept_events(module, height, raws).len() ==> {
                let e = #[trigger] kept_events(module, height, raws)[k];
                &&& e.module() == Some(module)
                &&& e.height() == height
                &&& exists|j: int| 0 <= j < raws.len() && event_of(height, raws[j]) == Some(e)
            },
    decreases raws.len(),
{
    if raws.len() > 0 {
        let rest = raws.drop_last();
        lemma_kept_events_belong(module, height, rest);
        assert forall|k: int| 0 <= k < kept_events(module, height, raws).len() implies {
            let e = #[trigger] kept_events(module, height, raws)[k];
            &&& e.module() == Some(module)
            &&& e.height() == height
            &&& exists|j: int| 0 <= j < raws.len() && event_of(height, raws[j]) == Some(e)
        } by {
            let e = kept_events(module, height, raws)[k];
            if k < kept_events(module, height, rest).len() {
                assert(e == kept_events(module, height, rest)[k]);
                let j = choose|j: int| 0 <= j < rest.len() && event_of(height, rest[j]) == Some(e);
                assert(raws[j] == rest[j]);
            } else {
                assert(event_of(height, raws[raws.len() - 1]) == Some(e));
                crate::event::lemma_event_of_kind(height, raws.last());
            }
        }
    }
}

/// A subscription for one module never yields an event of another module:
/// what the subscriptions for two different modules keep of the same
/// transaction has no event in common.
pub proof fn lemma_no_leak(
    module: Module,
    other: Module,
    height: Height,
    raws: Seq<RawEventView>,
    k: int,
)
    requires
        module != other,
        0 <= k < kept_events(module, height, raws).len(),
    ensures
        kept_events(module, height, raws)[k].module() != Some(other),
        !kept_events(other, height, raws).contains(kept_events(module, height, raws)[k]),
{
    lemma_kept_events_belong(module, height, raws);
    lemma_kept_events_belong(other, height, raws);
}

/// A readable raw event is kept by the subscription for its own module.
pub proof fn lemma_own_event_kept(module: Module, height: Height, raws: Seq<RawEventView>, j: int)
    requires
        0 <= j < raws.len(),
        event_of(height, raws[j]) is Some,
        event_of(height, raws[j]).unwrap().module() == Some(module),
    ensures
        kept_events(module, height, raws).contains(event_of(height, raws[j]).unwrap()),
    decreases raws.len(),
{
    let e = event_of(height, raws[j]).unwrap();
    let rest = raws.drop_last();
    if j == raws.len() - 1 {
        let kept = kept_events(module, height, raws);
        assert(kept == kept_events(module, height, rest).push(e));
        assert(kept[kept.len() - 1] == e);
    } else {
        assert(rest[j] == raws[j]);
        lemma_own_event_kept(module, height, rest, j);
        let kept_rest = kept_events(module, height, rest);
        let i = choose|i: int| 0 <= i < kept_rest.len() && kept_rest[i] == e;
        assert(kept_events(module, height, raws)[i] == e);
    }
}

/// A text without `\` and `'` is its own escaped form.
pub proof fn lemma_escaped_plain(s: Seq<char>)
    requires
        forall|i: int| 0 <= i < s.len() ==> s[i] != '\\' && s[i] != '\'',
    ensures
        escaped(s) == s,
    decreases s.len(),
{
    if s.len() > 0 {
        lemma_escaped_plain(s.drop_last());
        assert(s.drop_last().push(s.last()) =~= s);
    }
}

/// The four filters differ from each other, so a message is attributed to
/// the subscription that delivered it and to no other.
pub proof fn lemma_filter_identifies(tag: SubscriptionTag)
    ensures
        SubscriptionTag::of_filter_text(tag.filter_text()) == Some(tag),
{
    reveal_strlit("tm.event = 'NewBlock'");
    reveal_strlit("message.module");
    reveal_strlit(" = ");
    reveal_strlit("ibc_client");
    reveal_strlit("ibc_connection");
    reveal_strlit("ibc_channel");
    lemma_escaped_plain("ibc_client"@);
    lemma_escaped_plain("ibc_connection"@);
    lemma_escaped_plain("ibc_channel"@);
    let blocks = SubscriptionTag::NewBlock.filter_text();
    let client = SubscriptionTag::Client.filter_text();
    let connection = SubscriptionTag::Connection.filter_text();
    let channel = SubscriptionTag::Channel.filter_text();
    assert(blocks[0] == 't');
    assert(client[0] == 'm');
    assert(connection[0] == 'm');
    assert(channel[0] == 'm');
    assert(client[23] == 'l');
    assert(connection[23] == 'o');
    assert(channel[23] == 'h');
}

/// One message of a subscription: the filter of the subscription that
/// delivered it, and what it delivers.
#[derive(Debug, PartialEq, Eq)]
pub struct Delivery {
    pub query: String,
    pub payload: EventPayload,
}

/// The merged stream of the adapter's subscriptions, as far as it decides
/// anything: it turns each message into protocol events, and it ends for
/// good when the transport fails.
#[derive(Debug, PartialEq, Eq)]
pub struct EventSubscriptionPipeline {
    revision_number: u64,
    open: bool,
}

impl EventSubscriptionPipeline {
    /// The revision number of the chain, which the heights of the events
    /// carry.
    pub closed spec fn revision_number(&self) -> u64 {
        self.revision_number
    }

    /// Whether the stream still yields events.
    pub closed spec fn is_open_spec(&self) -> bool {
        self.open
    }

    /// A stream that has just been opened.
    pub fn new(revision_number: u64) -> (p: EventSubscriptionPipeline)
        ensures
            p.is_open_spec(),
            p.revision_number() == revision_number,
    {
        EventSubscriptionPipeline { revision_number, open: true }
    }

    /// Whether the stream still yields events.
    #[verifier::when_used_as_spec(is_open_spec)]
    pub fn is_open(&self) -> (r: bool)
        ensures
            r == self.is_open_spec(),
    {
        self.open
    }

    /// Takes the next item of the merged stream: a message, or the failure
    /// of the transport with its description.
    ///
    /// A message gives the events that `classified` names for the
    /// subscription that its filter belongs to. A failure ends the stream:
    /// it is reported as `Error::Subscription`, and so is every item
    /// after it. The stream cannot be opened again.
    pub fn on_item(&mut self, item: Result<Delivery, String>) -> (r: Result<Vec<IbcEvent>, Error>)
        ensures
            final(self).revision_number() == old(self).revision_number(),
            final(self).is_open_spec() == (old(self).is_open_spec() && item is Ok),
            old(self).is_open_spec() && item is Ok ==> r is Ok && events_view(r->Ok_0@)
                == classified(
                SubscriptionTag::of_filter_text(item->Ok_0.query@),
                old(self).revision_number(),
                item->Ok_0.payload@,
            ),
            !old(self).is_open_spec() || item is Err ==> r is Err && r->Err_0 is Subscription,
            old(self).is_open_spec() ==> (item matches Err(message) ==> r->Err_0->Subscription_message@
                == message@),
    {
        if !self.open {
            return Err(Error::Subscription { message: String::from_str("the stream has ended") });
        }
        match item {
            Ok(delivery) => {
                let tag = SubscriptionTag::of_filter(delivery.query.as_str());
                Ok(classify(tag, self.revision_number, &delivery.payload))
            },
            Err(message) => {
                self.open = false;
                Err(Error::Subscription { message })
            },
        }
    }
}

} // verus!
