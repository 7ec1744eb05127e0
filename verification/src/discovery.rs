//! How the two ends of a service find each other through the lists of a topic.
//!
//! The end that runs a service listens for each subscriber of the topic and leaves the address in
//! the publisher list. The end that uses a service enters its name in the subscriber list and
//! dials the addresses that are left for it. Each watches the list that the other writes to.

use crate::signaling::{
    dial, dialing, is_name, keyspace_channel, keyspace_topic, law_dialing_is_for_the_addressee,
    law_peers_meet, law_url_is_its_three_names, make_url, publisher_list, publisher_topic,
    signaling_url, subscriber_list, subscriber_topic, url_listener, Dialing, DialingView,
};
use crate::text;
use crate::text::{has_suffix, law_suffix_leaves_a_prefix, texts};
use vstd::prelude::*;

verus! {

/// How long, in milliseconds, a subscriber waits before it dials, so that the publisher is
/// listening by then.
pub const DIAL_DELAY_MS: u64 = 1000;

/// One end of a topic: the topic's name, the name of the end itself, and the entries of the
/// other's list that were there at the start.
#[verifier::ext_equal]
pub struct EndView {
    pub topic: Seq<char>,
    pub listening: Seq<char>,
    pub known: Seq<Seq<char>>,
}

impl EndView {
    /// An end that has not read any list yet.
    pub open spec fn fresh(topic: Seq<char>, listening: Seq<char>) -> EndView {
        EndView { topic, listening, known: Seq::empty() }
    }

    /// The end after it has read the list of the other.
    pub open spec fn started(self, known: Seq<Seq<char>>) -> EndView {
        EndView { known, ..self }
    }

    /// The address at which this end waits for a subscriber.
    pub open spec fn mailbox(self, subscriber: Seq<char>) -> Seq<char> {
        signaling_url(self.topic, self.listening, subscriber)
    }

    /// The addresses at which this end waits for subscribers, in their order.
    pub open spec fn mailboxes(self, subscribers: Seq<Seq<char>>) -> Seq<Seq<char>> {
        Seq::new(subscribers.len(), |i: int| self.mailbox(subscribers[i]))
    }

    /// What this end makes of an address that was left by a publisher.
    pub open spec fn dial(self, mailbox: Seq<char>) -> Option<DialingView> {
        dialing(self.topic, self.listening, mailbox)
    }

    /// What this end dials of the addresses that were left by publishers, in their order.
    pub open spec fn dial_all(self, mailboxes: Seq<Seq<char>>) -> Seq<DialingView>
        decreases mailboxes.len(),
    {
        if mailboxes.len() == 0 {
            Seq::empty()
        } else {
            let before = self.dial_all(mailboxes.drop_last());
            match self.dial(mailboxes.last()) {
                Some(d) => before.push(d),
                None => before,
            }
        }
    }
}

/// The end that runs a service.
#[derive(Debug)]
pub struct ProviderDiscovery {
    topic: String,
    listening: String,
    subscribers: Vec<String>,
}

impl View for ProviderDiscovery {
    type V = EndView;

    closed spec fn view(&self) -> EndView {
        EndView {
            topic: self.topic@,
            listening: self.listening@,
            known: texts(self.subscribers@),
        }
    }
}

/// The end that uses a service.
#[derive(Debug)]
pub struct CallerDiscovery {
    topic: String,
    listening: String,
    publishers: Vec<String>,
}

impl View for CallerDiscovery {
    type V = EndView;

    closed spec fn view(&self) -> EndView {
        EndView {
            topic: self.topic@,
            listening: self.listening@,
            known: texts(self.publishers@),
        }
    }
}

/// What a subscriber does about an address that was put into the publisher list.
#[derive(Debug, Clone, PartialEq)]
pub enum PushedMailbox {
    /// Nothing: the address was there at the start.
    Known,
    /// Nothing: the address is for another.
    NotAddressed,
    /// Dial it.
    Dial(Dialing),
}

/// A new end that runs the service on `topic`, under the name `listening`.
pub fn create_new_remote_service_provider(topic: &str, listening: &str) -> (r: ProviderDiscovery)
    ensures
        r@ == EndView::fresh(topic@, listening@),
{
    let r = ProviderDiscovery {
        topic: topic.to_owned(),
        listening: listening.to_owned(),
        subscribers: Vec::new(),
    };
    assert(r@ =~= EndView::fresh(topic@, listening@));
    r
}

impl ProviderDiscovery {
    /// The list that this end leaves its addresses in.
    pub fn publisher_topic(&self) -> (r: String)
        ensures
            r@ == publisher_list(self@.topic),
    {
        publisher_topic(self.topic.as_str())
    }

    /// The list that this end finds subscribers in.
    pub fn subscriber_topic(&self) -> (r: String)
        ensures
            r@ == subscriber_list(self@.topic),
    {
        subscriber_topic(self.topic.as_str())
    }

    /// The channel that tells about new subscribers.
    pub fn watched_channel(&self) -> (r: String)
        ensures
            r@ == keyspace_channel(subscriber_list(self@.topic)),
    {
        keyspace_topic(subscriber_topic(self.topic.as_str()).as_str())
    }

    /// Starts with the subscribers that are there: gives the addresses to listen at, one for each
    /// of them, and remembers them.
    pub fn start(&mut self, subscribers: Vec<String>) -> (r: Vec<String>)
        ensures
            final(self)@ == old(self)@.started(texts(subscribers@)),
            texts(r@) == old(self)@.mailboxes(texts(subscribers@)),
    {
        let ghost end = old(self)@;
        let mut r: Vec<String> = Vec::new();
        let mut i: usize = 0;
        while i < subscribers.len()
            invariant
                i <= subscribers.len(),
                end == self@,
                end == old(self)@,
                r.len() == i,
                forall|j: int|
                    0 <= j < i ==> #[trigger] r@[j]@ == end.mailbox(texts(subscribers@)[j]),
            decreases subscribers.len() - i,
        {
            r.push(
                make_url(self.topic.as_str(), self.listening.as_str(), subscribers[i].as_str()),
            );
            i += 1;
        }
        self.subscribers = subscribers;
        assert(self@ =~= end.started(texts(subscribers@)));
        assert(texts(r@) =~= end.mailboxes(texts(subscribers@)));
        r
    }

    /// Decides after a push to the subscriber list, given the list as it is then. Its head is the
    /// entry that was pushed: a subscriber that was there at the start is passed over, for any
    /// other this gives the address to listen at.
    pub fn on_push(&self, updated_subscribers: &Vec<String>) -> (r: Option<String>)
        requires
            updated_subscribers.len() > 0,
        ensures
            r is None <==> self@.known.contains(updated_subscribers@[0]@),
            r matches Some(url) ==> url@ == self@.mailbox(updated_subscribers@[0]@),
    {
        let subscriber = &updated_subscribers[0];
        if text::contains(&self.subscribers, subscriber.as_str()) {
            None
        } else {
            Some(make_url(self.topic.as_str(), self.listening.as_str(), subscriber.as_str()))
        }
    }
}

/// A new end that uses the service on `topic`, under the name `listening`.
pub fn create_new_local_service_caller(topic: &str, listening: &str) -> (r: CallerDiscovery)
    ensures
        r@ == EndView::fresh(topic@, listening@),
{
    let r = CallerDiscovery {
        topic: topic.to_owned(),
        listening: listening.to_owned(),
        publishers: Vec::new(),
    };
    assert(r@ =~= EndView::fresh(topic@, listening@));
    r
}

impl CallerDiscovery {
    /// The list that this end finds addresses in.
    pub fn publisher_topic(&self) -> (r: String)
        ensures
            r@ == publisher_list(self@.topic),
    {
        publisher_topic(self.topic.as_str())
    }

    /// The list that this end enters its name in.
    pub fn subscriber_topic(&self) -> (r: String)
        ensures
            r@ == subscriber_list(self@.topic),
    {
        subscriber_topic(self.topic.as_str())
    }

    /// What this end enters in the subscriber list: its name.
    pub fn registration(&self) -> (r: &str)
        ensures
            r@ == self@.listening,
    {
        self.listening.as_str()
    }

    /// The channel that tells about new addresses.
    pub fn watched_channel(&self) -> (r: String)
        ensures
            r@ == keyspace_channel(publisher_list(self@.topic)),
    {
        keyspace_topic(publisher_topic(self.topic.as_str()).as_str())
    }

    /// Starts with the addresses that are there: gives what to dial, in their order, and
    /// remembers all of them.
    pub fn start(&mut self, publishers: Vec<String>) -> (r: Vec<Dialing>)
        ensures
            final(self)@ == old(self)@.started(texts(publishers@)),
            r@.map_values(|d: Dialing| d@) == old(self)@.dial_all(texts(publishers@)),
    {
        let ghost end = old(self)@;
        let ghost all = texts(publishers@);
        let mut r: Vec<Dialing> = Vec::new();
        let mut i: usize = 0;
        assert(all.take(0) =~= Seq::empty());
        assert(r@.map_values(|d: Dialing| d@) =~= end.dial_all(all.take(0)));
        while i < publishers.len()
            invariant
                i <= publishers.len(),
                end == self@,
                end == old(self)@,
                all == texts(publishers@),
                r@.map_values(|d: Dialing| d@) == end.dial_all(all.take(i as int)),
            decreases publishers.len() - i,
        {
            let ghost before = r@;
            assert(all.take(i + 1).drop_last() =~= all.take(i as int));
            match dial(self.topic.as_str(), self.listening.as_str(), publishers[i].as_str()) {
                Some(d) => {
                    r.push(d);
                    assert(r@.map_values(|d: Dialing| d@) =~= before.map_values(
                        |d: Dialing| d@,
                    ).push(d@));
                },
                None => {},
            }
            i += 1;
        }
        assert(all.take(publishers.len() as int) =~= all);
        self.publishers = publishers;
        assert(self@ =~= end.started(all));
        r
    }

    /// Decides after a push to the publisher list, given the list as it is then. Its head is the
    /// address that was pushed: one that was there at the start is passed over, and so is one for
    /// another; any other is dialed.
    pub fn on_push(&self, updated_publishers: &Vec<String>) -> (r: PushedMailbox)
        requires
            updated_publishers.len() > 0,
        ensures
            r is Known <==> self@.known.contains(updated_publishers@[0]@),
            r is NotAddressed <==> !self@.known.contains(updated_publishers@[0]@) && self@.dial(
                updated_publishers@[0]@,
            ) is None,
            r matches PushedMailbox::Dial(d) ==> self@.dial(updated_publishers@[0]@) == Some(d@),
    {
        let mailbox = &updated_publishers[0];
        if text::contains(&self.publishers, mailbox.as_str()) {
            return PushedMailbox::Known;
        }
        match dial(self.topic.as_str(), self.listening.as_str(), mailbox.as_str()) {
            Some(d) => PushedMailbox::Dial(d),
            None => PushedMailbox::NotAddressed,
        }
    }
}

/// The end that uses a service, when it starts, dials every address that an end which runs the
/// service has left for it, at that very address.
pub proof fn law_start_dials_what_was_left(
    provider: EndView,
    caller: EndView,
    mailboxes: Seq<Seq<char>>,
)
    requires
        provider.topic == caller.topic,
        is_name(provider.topic),
        is_name(provider.listening),
        mailboxes.contains(provider.mailbox(caller.listening)),
    ensures
        caller.dial_all(mailboxes).contains(
            DialingView {
                my_signaling_url: caller.mailbox(provider.listening),
                peer_dialing_url: provider.mailbox(caller.listening),
            },
        ),
    decreases mailboxes.len(),
{
    let met = DialingView {
        my_signaling_url: caller.mailbox(provider.listening),
        peer_dialing_url: provider.mailbox(caller.listening),
    };
    law_peers_meet(provider.topic, provider.listening, caller.listening);
    let all = caller.dial_all(mailboxes);
    let before = caller.dial_all(mailboxes.drop_last());
    if mailboxes.last() == provider.mailbox(caller.listening) {
        assert(all == before.push(met));
        assert(all[all.len() - 1] == met);
    } else {
        let i = mailboxes.index_of(provider.mailbox(caller.listening));
        assert(mailboxes.drop_last()[i] == provider.mailbox(caller.listening));
        law_start_dials_what_was_left(provider, caller, mailboxes.drop_last());
        let j = before.index_of(met);
        assert(all[j] == met);
    }
}

/// Whether a subscriber is there when a provider starts or is pushed later, the provider listens
/// at the same address, and the subscriber that finds it there dials it.
pub proof fn law_mailbox_is_dialed(provider: EndView, caller: EndView, subscribers: Seq<Seq<char>>)
    requires
        provider.topic == caller.topic,
        is_name(provider.topic),
        is_name(provider.listening),
        subscribers.contains(caller.listening),
    ensures
        provider.mailboxes(subscribers).contains(provider.mailbox(caller.listening)),
        caller.dial(provider.mailbox(caller.listening)) == Some(
            DialingView {
                my_signaling_url: caller.mailbox(provider.listening),
                peer_dialing_url: provider.mailbox(caller.listening),
            },
        ),
{
    let i = subscribers.index_of(caller.listening);
    assert(provider.mailboxes(subscribers)[i] == provider.mailbox(caller.listening));
    law_peers_meet(provider.topic, provider.listening, caller.listening);
}

/// An end is made of its topic and its name, and keeps both; what it knows is nothing at first, and
/// then the whole list that it started with.
pub proof fn law_end_keeps_what_it_was_made_of(
    topic: Seq<char>,
    listening: Seq<char>,
    end: EndView,
    list: Seq<Seq<char>>,
)
    ensures
        EndView::fresh(topic, listening).topic == topic,
        EndView::fresh(topic, listening).listening == listening,
        EndView::fresh(topic, listening).known.len() == 0,
        end.started(list).topic == end.topic,
        end.started(list).listening == end.listening,
        end.started(list).known == list,
{
}

/// An end that runs a service listens at one address for each subscriber, in their order: its topic,
/// its own name and the subscriber's, with a comma between neighbours.
pub proof fn law_one_address_for_each_subscriber(end: EndView, subscribers: Seq<Seq<char>>)
    ensures
        end.mailboxes(subscribers).len() == subscribers.len(),
        forall|i: int|
            0 <= i < subscribers.len() ==> #[trigger] end.mailboxes(subscribers)[i] == end.topic
                + seq![','] + end.listening + seq![','] + subscribers[i],
        forall|subscriber: Seq<char>| #[trigger]
            end.mailbox(subscriber) == end.topic + seq![','] + end.listening + seq![',']
                + subscriber,
{
    assert forall|subscriber: Seq<char>| #[trigger]
        end.mailbox(subscriber) == end.topic + seq![','] + end.listening + seq![','] + subscriber by {
        law_url_is_its_three_names(end.topic, end.listening, subscriber);
    }
    assert forall|i: int| 0 <= i < subscribers.len() implies #[trigger] end.mailboxes(
        subscribers,
    )[i] == end.topic + seq![','] + end.listening + seq![','] + subscribers[i] by {
        assert(end.mailboxes(subscribers)[i] == end.mailbox(subscribers[i]));
    }
}

/// An end that uses a service answers to an address exactly when its own name ends it, and then
/// listens and dials on its topic with the publisher that the address names.
pub proof fn law_end_dials_its_own_addresses(end: EndView, mailbox: Seq<char>)
    ensures
        end.dial(mailbox) is Some <==> exists|prefix: Seq<char>|
            #[trigger] (prefix + end.listening) == mailbox,
        end.dial(mailbox) matches Some(d) ==> {
            &&& d.my_signaling_url == end.topic + seq![','] + end.listening + seq![',']
                + url_listener(mailbox)
            &&& d.peer_dialing_url == end.topic + seq![','] + url_listener(mailbox) + seq![',']
                + end.listening
        },
{
    law_dialing_is_for_the_addressee(end.topic, end.listening, mailbox);
}

/// A list of addresses is dialed address by address: what is dialed of two lists is what is dialed
/// of the one and then of the other, and of one address it is the dialing of that address, or
/// nothing if the address is for another.
pub proof fn law_addresses_are_dialed_one_by_one(
    end: EndView,
    mailbox: Seq<char>,
    left: Seq<Seq<char>>,
    right: Seq<Seq<char>>,
)
    ensures
        end.dial_all(Seq::empty()).len() == 0,
        end.dial(mailbox) matches Some(d) ==> end.dial_all(seq![mailbox]) == seq![d],
        end.dial(mailbox) is None ==> end.dial_all(seq![mailbox]).len() == 0,
        end.dial_all(left + right) == end.dial_all(left) + end.dial_all(right),
    decreases right.len(),
{
    assert(seq![mailbox].drop_last() =~= Seq::empty());
    assert(seq![mailbox].last() == mailbox);
    assert(end.dial_all(Seq::empty()) =~= Seq::empty());
    if right.len() == 0 {
        assert(left + right =~= left);
        assert(end.dial_all(left) + end.dial_all(right) =~= end.dial_all(left));
    } else {
        law_addresses_are_dialed_one_by_one(end, mailbox, left, right.drop_last());
        assert((left + right).drop_last() =~= left + right.drop_last());
        assert((left + right).last() == right.last());
        assert(end.dial_all(left + right) =~= end.dial_all(left) + end.dial_all(right));
    }
}

/// When an end that uses a service starts, every dialing comes from an address of the list that
/// ends with its own name, every such address is dialed, and there are as many dialings as there
/// are such addresses.
pub proof fn law_start_dials_exactly_the_addressed(end: EndView, mailboxes: Seq<Seq<char>>)
    ensures
        forall|d: DialingView| #[trigger]
            end.dial_all(mailboxes).contains(d) ==> exists|k: int|
                0 <= k < mailboxes.len() && has_suffix(#[trigger] mailboxes[k], end.listening)
                    && end.dial(mailboxes[k]) == Some(d),
        forall|k: int|
            0 <= k < mailboxes.len() && has_suffix(#[trigger] mailboxes[k], end.listening)
                ==> end.dial(mailboxes[k]) is Some && end.dial_all(mailboxes).contains(
                end.dial(mailboxes[k])->0,
            ),
        end.dial_all(mailboxes).len() == mailboxes.filter(
            |mailbox: Seq<char>| has_suffix(mailbox, end.listening),
        ).len(),
    decreases mailboxes.len(),
{
    reveal(Seq::filter);
    let all = end.dial_all(mailboxes);
    if mailboxes.len() > 0 {
        let init = mailboxes.drop_last();
        let before = end.dial_all(init);
        let last = mailboxes.last();
        law_start_dials_exactly_the_addressed(end, init);
        law_dialing_is_for_the_addressee(end.topic, end.listening, last);
        law_suffix_leaves_a_prefix(last, end.listening);
        assert forall|d: DialingView| #[trigger] all.contains(d) implies exists|k: int|
            0 <= k < mailboxes.len() && has_suffix(#[trigger] mailboxes[k], end.listening)
                && end.dial(mailboxes[k]) == Some(d) by {
            let j = all.index_of(d);
            if j < before.len() {
                assert(before[j] == d);
                assert(before.contains(d));
                let k = choose|k: int|
                    0 <= k < init.len() && has_suffix(#[trigger] init[k], end.listening)
                        && end.dial(init[k]) == Some(d);
                assert(mailboxes[k] == init[k]);
            } else {
                assert(mailboxes[mailboxes.len() - 1] == last);
            }
        }
        assert forall|k: int|
            0 <= k < mailboxes.len() && has_suffix(
                #[trigger] mailboxes[k],
                end.listening,
            ) implies end.dial(mailboxes[k]) is Some && all.contains(end.dial(mailboxes[k])->0) by {
            if k < init.len() {
                assert(init[k] == mailboxes[k]);
                let d = end.dial(init[k])->0;
                let j = before.index_of(d);
                assert(all[j] == d);
            } else {
                assert(all[all.len() - 1] == end.dial(last)->0);
            }
        }
    }
}

} // verus!
