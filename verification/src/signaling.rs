//! Addresses that two nodes meet at.
//!
//! A name is written as fields between commas. An address is three names: the topic, the node
//! that listens there, and the node that is expected to call. The publisher of a topic leaves the
//! addresses that it listens at in the topic's publisher list, one for each subscriber.

use crate::text;
use crate::text::{
    has_suffix, join, law_join_of_parts, law_suffix_leaves_a_prefix, lemma_join_split,
    lemma_split_concat, lemma_split_nonempty, skip_take, split,
};
use vstd::prelude::*;

verus! {

/// How many fields a written name has.
pub const NAME_FIELDS: usize = 4;

/// Whether a text is a written name.
pub open spec fn is_name(name: Seq<char>) -> bool {
    split(name, ',').len() == NAME_FIELDS
}

/// The list that holds the addresses of a topic's publishers.
pub open spec fn publisher_list(topic: Seq<char>) -> Seq<char> {
    topic + "-pub"@
}

/// The list that holds the names of a topic's subscribers.
pub open spec fn subscriber_list(topic: Seq<char>) -> Seq<char> {
    topic + "-sub"@
}

/// The channel on which the store tells what happens to a list.
pub open spec fn keyspace_channel(list: Seq<char>) -> Seq<char> {
    "__keyspace@0__:"@ + list
}

/// The address on `topic` at which `listener` waits for `peer`.
pub open spec fn signaling_url(
    topic: Seq<char>,
    listener: Seq<char>,
    peer: Seq<char>,
) -> Seq<char> {
    topic.push(',') + (listener.push(',') + peer)
}

/// The name in the second place of an address.
pub open spec fn url_listener(url: Seq<char>) -> Seq<char> {
    join(skip_take(split(url, ','), NAME_FIELDS as nat, NAME_FIELDS as nat), ',')
}

/// Where a subscriber listens, and where it dials.
#[verifier::ext_equal]
pub struct DialingView {
    pub my_signaling_url: Seq<char>,
    pub peer_dialing_url: Seq<char>,
}

/// What a subscriber makes of an address in the publisher list. It dials the addresses that end
/// with its own name, and passes over all others.
pub open spec fn dialing(topic: Seq<char>, subscriber: Seq<char>, mailbox: Seq<char>) -> Option<
    DialingView,
> {
    if has_suffix(mailbox, subscriber) {
        let publisher = url_listener(mailbox);
        Some(
            DialingView {
                my_signaling_url: signaling_url(topic, subscriber, publisher),
                peer_dialing_url: signaling_url(topic, publisher, subscriber),
            },
        )
    } else {
        None
    }
}

/// Where a subscriber listens, and where it dials.
#[derive(Debug, Clone, PartialEq)]
pub struct Dialing {
    pub my_signaling_url: String,
    pub peer_dialing_url: String,
}

impl View for Dialing {
    type V = DialingView;

    open spec fn view(&self) -> DialingView {
        DialingView {
            my_signaling_url: self.my_signaling_url@,
            peer_dialing_url: self.peer_dialing_url@,
        }
    }
}

/// The list that holds the addresses of a topic's publishers.
pub fn publisher_topic(topic: &str) -> (r: String)
    ensures
        r@ == publisher_list(topic@),
{
    topic.to_owned().concat("-pub")
}

/// The list that holds the names of a topic's subscribers.
pub fn subscriber_topic(topic: &str) -> (r: String)
    ensures
        r@ == subscriber_list(topic@),
{
    topic.to_owned().concat("-sub")
}

/// The channel on which the store tells what happens to a list.
pub fn keyspace_topic(list: &str) -> (r: String)
    ensures
        r@ == keyspace_channel(list@),
{
    "__keyspace@0__:".to_owned().concat(list)
}

/// The address on `topic` at which `listener` waits for `peer`.
pub fn make_url(topic: &str, listener: &str, peer: &str) -> (r: String)
    ensures
        r@ == signaling_url(topic@, listener@, peer@),
{
    proof {
        reveal_strlit(",");
    }
    let r = topic.to_owned().concat(",").concat(listener).concat(",").concat(peer);
    assert(r@ =~= signaling_url(topic@, listener@, peer@));
    r
}

/// The name in the second place of an address.
pub fn listener_of(url: &str) -> (r: String)
    ensures
        r@ == url_listener(url@),
{
    proof {
        reveal_strlit(",");
    }
    let fields = text::split_fields(url, ',');
    text::join_fields(&fields, NAME_FIELDS, NAME_FIELDS, ",")
}

/// What a subscriber makes of an address in the publisher list.
pub fn dial(topic: &str, subscriber: &str, mailbox: &str) -> (r: Option<Dialing>)
    ensures
        r is Some <==> dialing(topic@, subscriber@, mailbox@) is Some,
        r matches Some(d) ==> dialing(topic@, subscriber@, mailbox@) == Some(d@),
{
    if !text::ends_with(mailbox, subscriber) {
        return None;
    }
    let publisher = listener_of(mailbox);
    let my_signaling_url = make_url(topic, subscriber, publisher.as_str());
    let peer_dialing_url = make_url(topic, publisher.as_str(), subscriber);
    Some(Dialing { my_signaling_url, peer_dialing_url })
}

/// The lists of topics are apart: no topic's publisher list is any topic's subscriber list, and
/// different topics have different lists, each with a channel of its own.
pub proof fn law_lists_are_apart(topic: Seq<char>, other: Seq<char>)
    ensures
        publisher_list(topic) != subscriber_list(other),
        publisher_list(topic) == publisher_list(other) ==> topic == other,
        subscriber_list(topic) == subscriber_list(other) ==> topic == other,
        keyspace_channel(topic) == keyspace_channel(other) ==> topic == other,
{
    reveal_strlit("-pub");
    reveal_strlit("-sub");
    reveal_strlit("__keyspace@0__:");
    let p = publisher_list(topic);
    let q = subscriber_list(other);
    if p == q {
        assert(p[p.len() - 3] == 'p');
        assert(q[q.len() - 3] == 's');
    }
    if publisher_list(topic) == publisher_list(other) {
        assert(publisher_list(topic).len() == topic.len() + 4);
        assert(publisher_list(other).len() == other.len() + 4);
        assert(publisher_list(topic).take(topic.len() as int) =~= topic);
        assert(publisher_list(other).take(other.len() as int) =~= other);
    }
    if subscriber_list(topic) == subscriber_list(other) {
        assert(subscriber_list(topic).len() == topic.len() + 4);
        assert(subscriber_list(other).len() == other.len() + 4);
        assert(subscriber_list(topic).take(topic.len() as int) =~= topic);
        assert(subscriber_list(other).take(other.len() as int) =~= other);
    }
    if keyspace_channel(topic) == keyspace_channel(other) {
        let n = "__keyspace@0__:"@.len() as int;
        assert(keyspace_channel(topic).skip(n) =~= topic);
        assert(keyspace_channel(other).skip(n) =~= other);
    }
}

/// The listener of an address is read back from it.
pub proof fn law_listener_is_read_back(
    topic: Seq<char>,
    listener: Seq<char>,
    peer: Seq<char>,
)
    requires
        is_name(topic),
        is_name(listener),
    ensures
        url_listener(signaling_url(topic, listener, peer)) == listener,
{
    let url = signaling_url(topic, listener, peer);
    lemma_split_concat(listener, peer, ',');
    lemma_split_concat(topic, listener.push(',') + peer, ',');
    lemma_split_nonempty(peer, ',');
    let fields = split(url, ',');
    assert(fields =~= split(topic, ',') + (split(listener, ',') + split(peer, ',')));
    assert(skip_take(fields, NAME_FIELDS as nat, NAME_FIELDS as nat) =~= split(listener, ','));
    lemma_join_split(listener, ',');
}

/// Publisher and subscriber meet: the subscriber dials exactly the address at which the publisher
/// listens for it, and listens itself at the address with the two names exchanged.
pub proof fn law_peers_meet(topic: Seq<char>, publisher: Seq<char>, subscriber: Seq<char>)
    requires
        is_name(topic),
        is_name(publisher),
    ensures
        dialing(topic, subscriber, signaling_url(topic, publisher, subscriber)) == Some(
            DialingView {
                my_signaling_url: signaling_url(topic, subscriber, publisher),
                peer_dialing_url: signaling_url(topic, publisher, subscriber),
            },
        ),
{
    let mailbox = signaling_url(topic, publisher, subscriber);
    law_listener_is_read_back(topic, publisher, subscriber);
    assert(mailbox.skip(mailbox.len() - subscriber.len()) =~= subscriber);
}

/// A subscriber answers to an address that a publisher left for some subscriber exactly when its
/// own name ends that one's name. In particular it answers to its own, and to no other name of
/// the same or of a smaller length.
pub proof fn law_addressee(
    topic: Seq<char>,
    publisher: Seq<char>,
    addressee: Seq<char>,
    subscriber: Seq<char>,
)
    requires
        is_name(addressee),
        is_name(subscriber),
    ensures
        dialing(topic, subscriber, signaling_url(topic, publisher, addressee)) is Some
            <==> has_suffix(addressee, subscriber),
        addressee.len() <= subscriber.len() ==> (dialing(
            topic,
            subscriber,
            signaling_url(topic, publisher, addressee),
        ) is Some <==> addressee == subscriber),
{
    let mailbox = signaling_url(topic, publisher, addressee);
    let head = topic.push(',') + publisher;
    assert(mailbox =~= head.push(',') + addressee);
    if has_suffix(mailbox, subscriber) {
        if subscriber.len() > addressee.len() {
            let k = subscriber.len() - addressee.len() - 1;
            let rest = subscriber.take(k);
            let start = mailbox.len() - subscriber.len();
            assert forall|i: int| 0 <= i < subscriber.len() implies subscriber[i] == #[trigger] mailbox[start
                + i] by {
                assert(mailbox.skip(start)[i] == mailbox[start + i]);
            }
            assert(subscriber =~= rest.push(',') + addressee) by {
                assert forall|i: int| 0 <= i < subscriber.len() implies subscriber[i] == (rest.push(
                    ',',
                ) + addressee)[i] by {
                    if i >= k {
                        assert(subscriber[i] == mailbox[start + i]);
                    }
                }
            }
            lemma_split_concat(rest, addressee, ',');
            lemma_split_nonempty(rest, ',');
            assert(false);
        }
        let off = addressee.len() - subscriber.len();
        assert(addressee.skip(off) =~= mailbox.skip(mailbox.len() - subscriber.len()));
    }
    if has_suffix(addressee, subscriber) {
        let off = addressee.len() - subscriber.len();
        assert(addressee.skip(off) =~= mailbox.skip(mailbox.len() - subscriber.len()));
    }
    if addressee.len() <= subscriber.len() && has_suffix(addressee, subscriber) {
        assert(addressee.skip(0) =~= addressee);
    }
    if addressee == subscriber {
        assert(addressee.skip(0) =~= addressee);
    }
}

/// A topic's lists are named by the topic and what they are for, and a list's channel by the
/// list.
pub proof fn law_lists_are_named_after_the_topic(topic: Seq<char>)
    ensures
        publisher_list(topic) == topic + seq!['-', 'p', 'u', 'b'],
        subscriber_list(topic) == topic + seq!['-', 's', 'u', 'b'],
        keyspace_channel(topic).len() == topic.len() + 15,
        keyspace_channel(topic).take(15) == "__keyspace@0__:"@,
        keyspace_channel(topic).skip(15) == topic,
{
    reveal_strlit("-pub");
    reveal_strlit("-sub");
    reveal_strlit("__keyspace@0__:");
    assert("-pub"@ =~= seq!['-', 'p', 'u', 'b']);
    assert("-sub"@ =~= seq!['-', 's', 'u', 'b']);
    assert(keyspace_channel(topic).take(15) =~= "__keyspace@0__:"@);
    assert(keyspace_channel(topic).skip(15) =~= topic);
}

/// An address is the topic, the listener and the peer, with a comma between neighbours.
pub proof fn law_url_is_its_three_names(topic: Seq<char>, listener: Seq<char>, peer: Seq<char>)
    ensures
        signaling_url(topic, listener, peer) == topic + seq![','] + listener + seq![','] + peer,
{
    assert(signaling_url(topic, listener, peer) =~= topic + seq![','] + listener + seq![',']
        + peer);
}

/// The name in the second place of an address is what stands between the fourth comma and the
/// eighth. With fewer than eight commas it reaches to the end; with fewer than four it is empty.
pub proof fn law_listener_stands_second(url: Seq<char>)
    ensures
        ({
            let fields = split(url, ',');
            let listener = url_listener(url);
            &&& fields.len() <= 4 ==> listener.len() == 0
            &&& 4 < fields.len() <= 8 ==> url == join(fields.take(4), ',') + seq![','] + listener
            &&& fields.len() > 8 ==> url == join(fields.take(4), ',') + seq![','] + listener + seq![
                ',',
            ] + join(fields.skip(8), ',')
        }),
{
    let fields = split(url, ',');
    let second = skip_take(fields, 4, 4);
    lemma_join_split(url, ',');
    if fields.len() > 4 {
        law_join_of_parts(Seq::empty(), fields.take(4), fields.skip(4), ',');
        assert(fields.take(4) + fields.skip(4) =~= fields);
        if fields.len() <= 8 {
            assert(second =~= fields.skip(4));
        } else {
            law_join_of_parts(Seq::empty(), second, fields.skip(8), ',');
            assert(second + fields.skip(8) =~= fields.skip(4));
            assert(url =~= join(fields.take(4), ',') + seq![','] + url_listener(url) + seq![',']
                + join(fields.skip(8), ','));
        }
    }
}

/// A subscriber dials an address exactly when its own name ends it. It then listens on the topic
/// under its own name for the publisher that the address names, and dials that publisher on the
/// topic under the publisher's name.
pub proof fn law_dialing_is_for_the_addressee(
    topic: Seq<char>,
    subscriber: Seq<char>,
    mailbox: Seq<char>,
)
    ensures
        dialing(topic, subscriber, mailbox) is Some <==> exists|prefix: Seq<char>|
            #[trigger] (prefix + subscriber) == mailbox,
        dialing(topic, subscriber, mailbox) matches Some(d) ==> {
            &&& d.my_signaling_url == topic + seq![','] + subscriber + seq![','] + url_listener(
                mailbox,
            )
            &&& d.peer_dialing_url == topic + seq![','] + url_listener(mailbox) + seq![',']
                + subscriber
        },
{
    law_suffix_leaves_a_prefix(mailbox, subscriber);
    law_url_is_its_three_names(topic, subscriber, url_listener(mailbox));
    law_url_is_its_three_names(topic, url_listener(mailbox), subscriber);
}

/// A dialing names the two addresses that it is about.
pub proof fn law_dialing_shows_its_addresses(dialing: Dialing)
    ensures
        dialing@.my_signaling_url == dialing.my_signaling_url@,
        dialing@.peer_dialing_url == dialing.peer_dialing_url@,
{
}

} // verus!
