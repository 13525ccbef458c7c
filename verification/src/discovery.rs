//! mDNS service discovery: what a browse keeps of the events it hears.
//!
//! The daemon and its channel are driven from outside: every event that
//! arrives before the timeout is handed to a [`DiscoveryCollector`], which
//! keeps the resolved services and says when to stop listening.
use vstd::prelude::*;
use crate::ErrorCode;

verus! {

/// A TXT property of a discovered service.
pub struct NapiProperty {
    pub key: String,
    pub value: String,
}

/// A discovered service: its full name, host name, port, addresses (in
/// their printed form) and TXT properties.
pub struct NapiServiceInfo {
    pub fullname: String,
    pub hostname: String,
    pub port: u16,
    pub addresses: Vec<String>,
    pub properties: Vec<NapiProperty>,
}

/// An event of an mDNS browse.
pub enum MdnsEvent {
    /// A service was resolved.
    ServiceResolved(NapiServiceInfo),
    /// Any other event (search started or stopped, service found or
    /// removed before it was resolved).
    Other,
}

/// The resolved services among `events`, in the order they were heard.
pub open spec fn resolved_of(events: Seq<MdnsEvent>) -> Seq<NapiServiceInfo>
    decreases events.len(),
{
    if events.len() == 0 {
        Seq::empty()
    } else {
        let rest = resolved_of(events.drop_last());
        match events.last() {
            MdnsEvent::ServiceResolved(info) => rest.push(info),
            MdnsEvent::Other => rest,
        }
    }
}

/// What a browse has kept so far.
pub struct DiscoveryCollector {
    found: Vec<NapiServiceInfo>,
}

impl View for DiscoveryCollector {
    type V = Seq<NapiServiceInfo>;

    closed spec fn view(&self) -> Seq<NapiServiceInfo> {
        self.found@
    }
}

impl DiscoveryCollector {
    /// Opens a browse. `opened` tells whether the mDNS daemon was created
    /// and the browse for the service type started; when so, a collector
    /// that has kept nothing, and otherwise the failure a discovery ends
    /// with, `MDNSInitFailure`.
    pub fn begin(opened: bool) -> (r: Result<DiscoveryCollector, ErrorCode>)
        ensures
            opened ==> (r matches Ok(c) && c@ == Seq::<NapiServiceInfo>::empty()),
            !opened ==> (r matches Err(e) && e == ErrorCode::MDNSInitFailure),
    {
        if opened {
            Ok(DiscoveryCollector::new())
        } else {
            Err(ErrorCode::MDNSInitFailure)
        }
    }

    /// A collector that has kept nothing.
    pub fn new() -> (c: DiscoveryCollector)
        ensures
            c@ == Seq::<NapiServiceInfo>::empty(),
    {
        DiscoveryCollector { found: Vec::new() }
    }

    /// Takes what the browse channel gave: an event, or `None` when the
    /// wait timed out or the channel closed. A resolved service is kept;
    /// the answer is whether to keep listening, which is so exactly while
    /// events arrive.
    pub fn on_event(&mut self, event: Option<MdnsEvent>) -> (keep_listening: bool)
        ensures
            keep_listening == event is Some,
            event matches Some(MdnsEvent::ServiceResolved(info)) ==> final(self)@ == old(self)@.push(
                info,
            ),
            event matches Some(MdnsEvent::Other) ==> final(self)@ == old(self)@,
            event is None ==> final(self)@ == old(self)@,
            final(self)@ == match event {
                Some(e) => old(self)@ + resolved_of(seq![e]),
                None => old(self)@,
            },
    {
        match event {
            Some(e) => {
                proof {
                    reveal_with_fuel(resolved_of, 2);
                }
                match e {
                    MdnsEvent::ServiceResolved(info) => {
                        self.found.push(info);
                    },
                    MdnsEvent::Other => {},
                }
                true
            },
            None => false,
        }
    }

    /// The services kept, in the order they were resolved.
    pub fn into_found(self) -> (v: Vec<NapiServiceInfo>)
        ensures
            v@ == self@,
    {
        self.found
    }
}

/// Every resolved service is kept, whatever it holds (an empty list of
/// TXT properties, no address, port 0), and no other event keeps anything.
pub proof fn lemma_resolved_of_single(info: NapiServiceInfo)
    ensures
        resolved_of(seq![MdnsEvent::ServiceResolved(info)]) == seq![info],
        resolved_of(seq![MdnsEvent::Other]) == Seq::<NapiServiceInfo>::empty(),
{
    reveal_with_fuel(resolved_of, 2);
    assert(seq![MdnsEvent::ServiceResolved(info)].drop_last() =~= Seq::<MdnsEvent>::empty());
    assert(seq![MdnsEvent::Other].drop_last() =~= Seq::<MdnsEvent>::empty());
    assert(Seq::<NapiServiceInfo>::empty().push(info) =~= seq![info]);
}

/// A browse keeps one service for each resolved event it hears and none
/// for the others: the number kept is the number of resolved events.
pub proof fn lemma_resolved_of_len(events: Seq<MdnsEvent>)
    ensures
        resolved_of(events).len() == events.filter(|e: MdnsEvent| e is ServiceResolved).len(),
    decreases events.len(),
{
    reveal_with_fuel(Seq::filter, 1);
    if events.len() > 0 {
        lemma_resolved_of_len(events.drop_last());
    }
}

/// Events heard one after the other keep the resolved services of both
/// runs, in order: so a browse fed the events `e1 .. en` keeps exactly the
/// resolved ones among them.
pub proof fn lemma_resolved_of_concat(a: Seq<MdnsEvent>, b: Seq<MdnsEvent>)
    ensures
        resolved_of(a + b) == resolved_of(a) + resolved_of(b),
    decreases b.len(),
{
    if b.len() == 0 {
        assert(a + b =~= a);
    } else {
        lemma_resolved_of_concat(a, b.drop_last());
        assert((a + b).drop_last() =~= a + b.drop_last());
        assert((a + b).last() == b.last());
    }
}

} // verus!
