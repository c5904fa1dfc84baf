//! The producer's table of routes: how a topic's route is looked up, asked for,
//! and brought up to date.
//!
//! The table is behind a lock that a producer shares with its clones. The functions
//! here take what the lock guards at the time, from the caller who holds it.

use std::sync::Arc;
use tokio::sync::RwLock;
use vstd::hash_map::StringHashMap;
use vstd::prelude::*;

use crate::producer::DefaultMQProducerImpl;
use crate::types::TopicPublishInfo;

verus! {

/// What a producer knows of routes.
pub type PublishInfoTable = StringHashMap<TopicPublishInfo>;

/// Routes by topic.
pub type RouteTable = Map<Seq<char>, TopicPublishInfo>;

/// What the table holds for a topic.
pub open spec fn route_of(table: RouteTable, topic: Seq<char>) -> Option<TopicPublishInfo> {
    if table.contains_key(topic) {
        Some(table[topic])
    } else {
        None
    }
}

/// The table has a route for the topic that messages can be sent along.
pub open spec fn has_usable_route(table: RouteTable, topic: Seq<char>) -> bool {
    table.contains_key(topic) && table[topic].usable
}

/// The table after the lookup of a topic began: `blank` stands where no usable
/// route did.
pub open spec fn table_after_lookup(
    table: RouteTable,
    topic: Seq<char>,
    blank: TopicPublishInfo,
) -> RouteTable {
    if has_usable_route(table, topic) {
        table
    } else {
        table.insert(topic, blank)
    }
}

/// The table after it was told of a route. A topic without a name, or no route,
/// tells it nothing.
pub open spec fn updated_table(
    table: RouteTable,
    topic: Seq<char>,
    info: Option<TopicPublishInfo>,
) -> RouteTable {
    if topic.len() == 0 || info is None {
        table
    } else {
        table.insert(topic, info->0)
    }
}

/// The table after it was told of several routes, one after the other.
pub open spec fn updated_table_by(
    table: RouteTable,
    updates: Seq<(Seq<char>, Option<TopicPublishInfo>)>,
) -> RouteTable
    decreases updates.len(),
{
    if updates.len() == 0 {
        table
    } else {
        let last = updates.last();
        updated_table(updated_table_by(table, updates.drop_last()), last.0, last.1)
    }
}

/// How a lookup goes on once the table was read.
pub enum RouteLookup {
    /// The route is known.
    Known(TopicPublishInfo),
    /// A name server is to be asked for the topic's own route.
    AskNameServer,
}

/// How a lookup goes on once a name server was asked.
pub enum DefaultRouteLookup {
    /// The route is known.
    Known(TopicPublishInfo),
    /// A name server is to be asked for the route that new topics take.
    AskNameServerForDefault,
}

/// What a table holds for a topic.
fn cached_route(table: &PublishInfoTable, topic: &str) -> (info: Option<TopicPublishInfo>)
    ensures
        info == route_of(table@, topic@),
{
    match table.get(topic) {
        Some(info) => Some(*info),
        None => None,
    }
}

impl<S, C> DefaultMQProducerImpl<S, C> {
    /// Begins the lookup of a topic's route. A usable route in the table is the
    /// answer; otherwise `blank`, a route without content, takes its place while a
    /// name server is asked.
    pub fn try_to_find_topic_publish_info(
        &self,
        table: &mut PublishInfoTable,
        topic: &str,
        blank: TopicPublishInfo,
    ) -> (step: RouteLookup)
        ensures
            final(table)@ == table_after_lookup(old(table)@, topic@, blank),
            match step {
                RouteLookup::Known(info) => {
                    &&& has_usable_route(old(table)@, topic@)
                    &&& info == old(table)@[topic@]
                    &&& *final(table) == *old(table)
                },
                RouteLookup::AskNameServer => !has_usable_route(old(table)@, topic@),
            },
    {
        match cached_route(table, topic) {
            Some(info) => {
                if info.ok() {
                    return RouteLookup::Known(info);
                }
            },
            None => {},
        }
        table.insert(topic.to_owned(), blank);
        RouteLookup::AskNameServer
    }

    /// Goes on with a lookup after a name server was asked for the topic's own
    /// route. A route from a name server is the answer even when it has no queue
    /// to send to.
    pub fn topic_route_asked(&self, table: &PublishInfoTable, topic: &str) -> (step:
        DefaultRouteLookup)
        requires
            table@.contains_key(topic@),
        ensures
            ({
                let info = table@[topic@];
                match step {
                    DefaultRouteLookup::Known(known) => known == info && (info.usable
                        || info.have_topic_router_info),
                    DefaultRouteLookup::AskNameServerForDefault => !info.usable
                        && !info.have_topic_router_info,
                }
            }),
    {
        match cached_route(table, topic) {
            Some(info) => {
                if info.have_topic_router_info || info.ok() {
                    DefaultRouteLookup::Known(info)
                } else {
                    DefaultRouteLookup::AskNameServerForDefault
                }
            },
            None => DefaultRouteLookup::AskNameServerForDefault,
        }
    }

    /// Ends a lookup after a name server was asked for the route that new topics
    /// take: the answer is what the table holds by then.
    pub fn default_route_asked(&self, table: &PublishInfoTable, topic: &str) -> (info: Option<
        TopicPublishInfo,
    >)
        ensures
            info == route_of(table@, topic@),
    {
        cached_route(table, topic)
    }

    /// Whether a topic's route is missing or of no use.
    pub fn is_publish_topic_need_update(&self, table: &PublishInfoTable, topic: &str) -> (yes: bool)
        ensures
            yes == !has_usable_route(table@, topic@),
    {
        match cached_route(table, topic) {
            Some(info) => !info.ok(),
            None => true,
        }
    }

    /// Tells the table of a route.
    pub fn update_topic_publish_info(
        &self,
        table: &mut PublishInfoTable,
        topic: String,
        info: Option<TopicPublishInfo>,
    )
        ensures
            final(table)@ == updated_table(old(table)@, topic@, info),
    {
        if topic.as_str().is_empty() {
            return ;
        }
        match info {
            Some(info) => {
                table.insert(topic, info);
            },
            None => {},
        }
    }
}

/// The topics and routes of `told`.
pub open spec fn updates_of(
    told: Seq<(String, Option<TopicPublishInfo>)>,
) -> Seq<(Seq<char>, Option<TopicPublishInfo>)> {
    told.map_values(|t: (String, Option<TopicPublishInfo>)| (t.0@, t.1))
}

impl<S, C> DefaultMQProducerImpl<S, C> {
    /// Tells the table of several routes, one after the other.
    fn update_by(
        &self,
        table: &mut PublishInfoTable,
        told: Vec<(String, Option<TopicPublishInfo>)>,
    )
        ensures
            final(table)@ == updated_table_by(old(table)@, updates_of(told@)),
    {
        let ghost before = table@;
        let mut i: usize = 0;
        assert(updates_of(told@.take(0)).len() == 0);
        while i < told.len()
            invariant
                i <= told@.len(),
                table@ == updated_table_by(before, updates_of(told@.take(i as int))),
            decreases told@.len() - i,
        {
            self.update_topic_publish_info(table, told[i].0.clone(), told[i].1);
            i += 1;
            assert(updates_of(told@.take(i as int)).drop_last() =~= updates_of(
                told@.take(i - 1),
            ));
        }
        assert(told@.take(i as int) =~= told@);
    }

    /// Plays a lookup through, step by step. `told` and `told_by_default` are the
    /// routes that the table is told of while a name server is asked for the topic's
    /// own route, and for the one that new topics take.
    pub fn rehearse_lookup(
        &self,
        table: &mut PublishInfoTable,
        topic: &str,
        blank: TopicPublishInfo,
        told: Vec<(String, Option<TopicPublishInfo>)>,
        told_by_default: Vec<(String, Option<TopicPublishInfo>)>,
    ) -> (found: Option<TopicPublishInfo>)
        ensures
            ({
                let cached = old(table)@;
                let asked = updated_table_by(cached.insert(topic@, blank), updates_of(told@));
                let asked_again = updated_table_by(asked, updates_of(told_by_default@));
                if has_usable_route(cached, topic@) {
                    &&& found == Some(cached[topic@])
                    &&& *final(table) == *old(table)
                } else if asked[topic@].usable || asked[topic@].have_topic_router_info {
                    &&& found == Some(asked[topic@])
                    &&& final(table)@ == asked
                } else {
                    &&& found == Some(asked_again[topic@])
                    &&& final(table)@ == asked_again
                }
            }),
    {
        proof {
            let cached = table@;
            let asked = updated_table_by(cached.insert(topic@, blank), updates_of(told@));
            law_asked_topic_stays_in_table(cached, topic@, blank, updates_of(told@));
            assert(asked.insert(topic@, asked[topic@]) =~= asked);
            law_asked_topic_stays_in_table(
                asked,
                topic@,
                asked[topic@],
                updates_of(told_by_default@),
            );
        }
        match self.try_to_find_topic_publish_info(table, topic, blank) {
            RouteLookup::Known(info) => {
                return Some(info);
            },
            RouteLookup::AskNameServer => {},
        }
        self.update_by(table, told);
        match self.topic_route_asked(table, topic) {
            DefaultRouteLookup::Known(info) => {
                return Some(info);
            },
            DefaultRouteLookup::AskNameServerForDefault => {},
        }
        self.update_by(table, told_by_default);
        self.default_route_asked(table, topic)
    }
}

/// A route that the table was told of is the one it holds, it needs an update
/// exactly when it is of no use, and no other topic's route is touched.
pub proof fn law_told_route_is_held(
    table: RouteTable,
    topic: Seq<char>,
    info: TopicPublishInfo,
    other: Seq<char>,
)
    requires
        topic.len() > 0,
        other != topic,
    ensures
        route_of(updated_table(table, topic, Some(info)), topic) == Some(info),
        has_usable_route(updated_table(table, topic, Some(info)), topic) == info.usable,
        route_of(updated_table(table, topic, Some(info)), other) == route_of(table, other),
{
}

/// What each lock guards, at some moment.
pub type Guarded = spec_fn(Arc<RwLock<PublishInfoTable>>) -> RouteTable;

impl<S, C> DefaultMQProducerImpl<S, C> {
    /// The two have one lock, and so one table.
    pub open spec fn shares_routes_with(&self, other: &Self) -> bool {
        self.topic_publish_info_table == other.topic_publish_info_table
    }

    /// The table of a producer, at a moment when locks guard what `guarded` says.
    pub open spec fn routes(&self, guarded: Guarded) -> RouteTable {
        guarded(self.topic_publish_info_table)
    }

    /// A route that a producer's table was told of, and that nothing was written
    /// over, is seen by the producer and by every clone: they hold it, and the topic
    /// needs an update exactly when the route is of no use, whatever the table held
    /// for it before.
    pub proof fn law_clones_see_told_routes(
        &self,
        clone: &Self,
        before: Guarded,
        after: Guarded,
        topic: Seq<char>,
        info: TopicPublishInfo,
    )
        requires
            clone.shares_routes_with(self),
            topic.len() > 0,
            self.routes(after) == updated_table(self.routes(before), topic, Some(info)),
        ensures
            route_of(self.routes(after), topic) == Some(info),
            route_of(clone.routes(after), topic) == Some(info),
            !has_usable_route(self.routes(after), topic) == !info.usable,
            !has_usable_route(clone.routes(after), topic) == !info.usable,
    {
    }
}

/// Looking a topic up takes no usable route out of the table, and none of another
/// topic at all.
pub proof fn law_lookup_keeps_usable_routes(
    table: RouteTable,
    topic: Seq<char>,
    blank: TopicPublishInfo,
    other: Seq<char>,
)
    ensures
        has_usable_route(table, other) ==> route_of(
            table_after_lookup(table, topic, blank),
            other,
        ) == route_of(table, other),
        other != topic ==> route_of(table_after_lookup(table, topic, blank), other) == route_of(
            table,
            other,
        ),
{
}

/// While a name server is asked for a topic, the table keeps an entry for it,
/// whatever routes it is told of meanwhile.
pub proof fn law_asked_topic_stays_in_table(
    table: RouteTable,
    topic: Seq<char>,
    blank: TopicPublishInfo,
    updates: Seq<(Seq<char>, Option<TopicPublishInfo>)>,
)
    ensures
        updated_table_by(table.insert(topic, blank), updates).contains_key(topic),
    decreases updates.len(),
{
    if updates.len() > 0 {
        law_asked_topic_stays_in_table(table, topic, blank, updates.drop_last());
    }
}

/// A table that no one tells of a topic forgets nothing and learns nothing about
/// it.
pub proof fn law_untold_topic_is_unchanged(
    table: RouteTable,
    topic: Seq<char>,
    updates: Seq<(Seq<char>, Option<TopicPublishInfo>)>,
)
    requires
        forall|i: int| 0 <= i < updates.len() ==> (#[trigger] updates[i]).0 != topic,
    ensures
        route_of(updated_table_by(table, updates), topic) == route_of(table, topic),
    decreases updates.len(),
{
    if updates.len() > 0 {
        let earlier = updates.drop_last();
        assert forall|i: int| 0 <= i < earlier.len() implies (#[trigger] earlier[i]).0 != topic by {
            assert(updates[i].0 != topic);
        }
        assert(updates[updates.len() - 1].0 != topic);
        law_untold_topic_is_unchanged(table, topic, earlier);
    }
}

/// A topic has a usable route exactly if the table holds one for it that has a queue
/// to send to; what the table holds for a topic is its entry, if there is one.
pub proof fn law_routes_are_the_entries(table: RouteTable, topic: Seq<char>)
    ensures
        has_usable_route(table, topic) <==> table.contains_key(topic) && table[topic].usable,
        table.contains_key(topic) ==> route_of(table, topic) == Some(table[topic]),
        !table.contains_key(topic) ==> route_of(table, topic) is None,
{
}

/// Telling the table of no route, or of one for a topic without a name, changes
/// nothing. Any other route becomes the topic's entry, and no other entry changes.
pub proof fn law_only_named_routes_are_told(
    table: RouteTable,
    topic: Seq<char>,
    info: TopicPublishInfo,
)
    ensures
        updated_table(table, topic, None) == table,
        updated_table(table, Seq::empty(), Some(info)) == table,
        topic.len() > 0 ==> updated_table(table, topic, Some(info)) == table.insert(topic, info),
{
}

/// A lookup leaves the table alone if it holds a usable route for the topic, and puts
/// the blank route in place of anything else.
pub proof fn law_lookup_blanks_what_is_of_no_use(
    table: RouteTable,
    topic: Seq<char>,
    blank: TopicPublishInfo,
)
    ensures
        table.contains_key(topic) && table[topic].usable ==> table_after_lookup(
            table,
            topic,
            blank,
        ) == table,
        !table.contains_key(topic) || !table[topic].usable ==> table_after_lookup(
            table,
            topic,
            blank,
        ) == table.insert(topic, blank),
{
}

/// Several routes are told one after the other: none leaves the table as it is, and
/// each further one is told to the table that those before it made.
pub proof fn law_routes_are_told_in_order(
    table: RouteTable,
    updates: Seq<(Seq<char>, Option<TopicPublishInfo>)>,
    topic: Seq<char>,
    info: TopicPublishInfo,
    told: Seq<(String, Option<TopicPublishInfo>)>,
)
    ensures
        updated_table_by(table, Seq::empty()) == table,
        updated_table_by(table, updates.push((topic, None))) == updated_table_by(table, updates),
        topic.len() > 0 ==> updated_table_by(table, updates.push((topic, Some(info))))
            == updated_table_by(table, updates).insert(topic, info),
        updated_table_by(table, updates.push((Seq::empty(), Some(info)))) == updated_table_by(
            table,
            updates,
        ),
        updates_of(told).len() == told.len(),
        forall|i: int|
            0 <= i < told.len() ==> (#[trigger] updates_of(told)[i]).0 == told[i].0@
                && updates_of(told)[i].1 == told[i].1,
{
    assert(updates.push((topic, None)).drop_last() =~= updates);
    assert(updates.push((topic, Some(info))).drop_last() =~= updates);
    let unnamed: (Seq<char>, Option<TopicPublishInfo>) = (Seq::empty(), Some(info));
    assert(updates.push(unnamed).drop_last() =~= updates);
    assert(updates.push(unnamed).last() == unnamed);
}

/// Two producers share routes exactly if they have the same lock.
pub proof fn law_routes_are_shared_by_lock<S, C>(
    one: &DefaultMQProducerImpl<S, C>,
    other: &DefaultMQProducerImpl<S, C>,
    guarded: Guarded,
)
    ensures
        one.shares_routes_with(other) <==> one.topic_publish_info_table
            == other.topic_publish_info_table,
        one.routes(guarded) == guarded(one.topic_publish_info_table),
        one.shares_routes_with(other) ==> one.routes(guarded) == other.routes(guarded),
{
}

/// A topic needs an update exactly if the table holds no route for it that messages can
/// be sent along.
pub proof fn law_topics_without_usable_routes_need_updates<S, C>(
    producer: &DefaultMQProducerImpl<S, C>,
    table: PublishInfoTable,
    topic: &str,
    yes: bool,
)
    requires
        call_ensures(
            DefaultMQProducerImpl::<S, C>::is_publish_topic_need_update,
            (producer, &table, topic),
            yes,
        ),
    ensures
        yes <==> !table@.contains_key(topic@) || !table@[topic@].usable,
{
}

/// The answer of a name server ends a lookup if it is a route of the topic's own, or one
/// that messages can be sent along; otherwise the route of new topics is asked for, and
/// what the table holds after that is the answer, whatever it is.
pub proof fn law_routes_from_name_servers_end_lookups<S, C>(
    producer: &DefaultMQProducerImpl<S, C>,
    table: PublishInfoTable,
    topic: &str,
    step: DefaultRouteLookup,
    found: Option<TopicPublishInfo>,
)
    requires
        table@.contains_key(topic@),
        call_ensures(
            DefaultMQProducerImpl::<S, C>::topic_route_asked,
            (producer, &table, topic),
            step,
        ),
        call_ensures(
            DefaultMQProducerImpl::<S, C>::default_route_asked,
            (producer, &table, topic),
            found,
        ),
    ensures
        step is Known <==> table@[topic@].usable || table@[topic@].have_topic_router_info,
        step matches DefaultRouteLookup::Known(info) ==> info == table@[topic@],
        found == Some(table@[topic@]),
{
}

} // verus!
