//! What holds of the order in which organizations are tried.
use crate::error::{ClewdrError, Reason};
use crate::json::{json_document, Json, JsonView};
use crate::organization::{
    account_read, any_subscribed, candidate, candidates, described, has_rank, has_subscription,
    mentions, org_priority, organization_views, organizations, organizations_of, priority, rank,
    ranked, read_account, strings_among, subscribed, AccountReport, ClaudeCodeState, Organization,
    OrganizationView,
};
use crate::text::{joined, occurs, texts};
use vstd::prelude::*;

verus! {

/// Organizations are tried in the order of their ranks.
pub proof fn ranks_never_fall(list: Seq<OrganizationView>, i: int, j: int)
    requires
        0 <= i <= j < ranked(list).len(),
    ensures
        priority(ranked(list)[i].capabilities) <= priority(ranked(list)[j].capabilities),
{
    broadcast use vstd::seq_lib::group_filter_ensures;

    rank_by_place(list, i);
    rank_by_place(list, j);
}

/// Organizations of one rank are tried in the order of the memberships.
pub proof fn order_within_a_rank_is_kept(list: Seq<OrganizationView>, rank: u8)
    requires
        rank <= 3,
    ensures
        ranked(list).filter(has_rank(rank)) == list.filter(has_rank(rank)),
{
    let a = list.filter(has_rank(0));
    let b = list.filter(has_rank(1));
    let c = list.filter(has_rank(2));
    let d = list.filter(has_rank(3));
    let want = has_rank(rank);
    Seq::filter_distributes_over_add(a, b, want);
    Seq::filter_distributes_over_add(a + b, c, want);
    Seq::filter_distributes_over_add(a + b + c, d, want);
    filter_twice(list, 0, rank);
    filter_twice(list, 1, rank);
    filter_twice(list, 2, rank);
    filter_twice(list, 3, rank);
    assert(ranked(list).filter(want) =~= list.filter(want));
}

/// Every organization is tried as often as it was found, and no other one is.
pub proof fn ranking_loses_nothing(list: Seq<OrganizationView>)
    ensures
        ranked(list).to_multiset() == list.to_multiset(),
        ranked(list).len() == list.len(),
    decreases list.len(),
{
    broadcast use vstd::seq_lib::group_to_multiset_ensures;

    reveal(Seq::filter);
    if list.len() == 0 {
        assert(ranked(list) =~= list);
    } else {
        let init = list.drop_last();
        let last = list.last();
        ranking_loses_nothing(init);
        let a = init.filter(has_rank(0));
        let b = init.filter(has_rank(1));
        let c = init.filter(has_rank(2));
        let d = init.filter(has_rank(3));
        let rank = priority(last.capabilities);
        let (head, tail) = if rank == 0 {
            (a, b + c + d)
        } else if rank == 1 {
            (a + b, c + d)
        } else if rank == 2 {
            (a + b + c, d)
        } else {
            (a + b + c + d, Seq::empty())
        };
        assert(ranked(init) =~= head + tail);
        assert(ranked(list) =~= head.push(last) + tail);
        assert(head.push(last) + tail =~= (head + tail).insert(head.len() as int, last));
        assert(list =~= init.push(last));
        assert(ranked(list).to_multiset() =~= list.to_multiset());
    }
}

/// Every organization that is tried can chat.
pub proof fn tried_organizations_can_chat(memberships: Seq<JsonView>, i: int)
    requires
        0 <= i < candidates(memberships).len(),
    ensures
        candidates(memberships)[i].capabilities.contains("chat"@),
        exists|k: int|
            0 <= k < memberships.len() && #[trigger] candidate(memberships[k]) == Some(
                candidates(memberships)[i],
            ),
    decreases memberships.len(),
{
    if memberships.len() > 0 {
        let init = memberships.drop_last();
        if i < candidates(init).len() {
            tried_organizations_can_chat(init, i);
            let k = choose|k: int|
                0 <= k < init.len() && #[trigger] candidate(init[k]) == Some(candidates(init)[i]);
            assert(candidate(memberships[k]) == Some(candidates(memberships)[i]));
        } else {
            assert(candidate(memberships[memberships.len() - 1]) == Some(
                candidates(memberships)[i],
            ));
        }
    }
}

/// An account is refused, or the first organization to be tried has a usable
/// subscription.
pub proof fn a_subscription_is_tried_first(bootstrap: JsonView)
    ensures
        organizations_of(bootstrap) matches Ok(list) ==> list.len() > 0 && subscribed(
            list[0].capabilities,
        ),
{
    if let Ok(list) = organizations_of(bootstrap) {
        let found = candidates(bootstrap.at("account"@).at("memberships"@).as_items()->0);
        assert(list == ranked(found));
        ranking_loses_nothing(found);
        let i = choose|i: int| 0 <= i < found.len() && subscribed((#[trigger] found[i]).capabilities);
        let chosen = found[i];
        assert(list.contains(chosen)) by {
            broadcast use vstd::seq_lib::group_to_multiset_ensures;

            assert(found.contains(chosen));
            assert(found.to_multiset().count(chosen) > 0);
        }
        let j = choose|j: int| 0 <= j < list.len() && list[j] == chosen;
        ranks_never_fall(found, 0, j);
        subscribed_by_rank(chosen);
        subscribed_by_rank(list[0]);
    }
}

/// The last rank is that of organizations without a usable subscription.
pub proof fn subscribed_by_rank(organization: OrganizationView)
    ensures
        subscribed(organization.capabilities) <==> priority(organization.capabilities) < 3,
        priority(organization.capabilities) <= 3,
{
}

/// A word by which a capability tells of a subscription stands in the list.
pub open spec fn any_occurs(capabilities: Seq<Seq<char>>, word: Seq<char>) -> bool {
    exists|i: int| 0 <= i < capabilities.len() && occurs(#[trigger] capabilities[i], word)
}

/// A list of capabilities is that of a subscription where `pro`, `enterprise`,
/// `raven` or `max` occurs in one of them, at whatever position, and only there.
pub proof fn a_subscription_may_stand_anywhere(capabilities: Seq<Seq<char>>)
    ensures
        subscribed(capabilities) <==> exists|i: int|
            0 <= i < capabilities.len() && {
                ||| occurs(#[trigger] capabilities[i], "pro"@)
                ||| occurs(capabilities[i], "enterprise"@)
                ||| occurs(capabilities[i], "raven"@)
                ||| occurs(capabilities[i], "max"@)
            },
{
    if subscribed(capabilities) {
        if mentions(capabilities, "pro"@) {
            let i = choose|i: int|
                0 <= i < capabilities.len() && occurs(#[trigger] capabilities[i], "pro"@);
            assert(occurs(capabilities[i], "pro"@));
        } else if mentions(capabilities, "enterprise"@) {
            let i = choose|i: int|
                0 <= i < capabilities.len() && occurs(#[trigger] capabilities[i], "enterprise"@);
            assert(occurs(capabilities[i], "enterprise"@));
        } else if mentions(capabilities, "raven"@) {
            let i = choose|i: int|
                0 <= i < capabilities.len() && occurs(#[trigger] capabilities[i], "raven"@);
            assert(occurs(capabilities[i], "raven"@));
        } else {
            let i = choose|i: int|
                0 <= i < capabilities.len() && occurs(#[trigger] capabilities[i], "max"@);
            assert(occurs(capabilities[i], "max"@));
        }
    }
}

/// The rank is 0 where `max` occurs in a capability, else 1 where `pro` does,
/// else 2 where `enterprise` or `raven` does, and else 3.
pub proof fn ranks_go_by_words(capabilities: Seq<Seq<char>>)
    ensures
        priority(capabilities) == if any_occurs(capabilities, "max"@) {
            0u8
        } else if any_occurs(capabilities, "pro"@) {
            1u8
        } else if any_occurs(capabilities, "enterprise"@) || any_occurs(capabilities, "raven"@) {
            2u8
        } else {
            3u8
        },
{
}

/// The subscription and the rank of a list of strings are those of its texts.
pub proof fn capabilities_are_judged_by_their_texts(capabilities: &[String], yes: bool, rank: u8)
    requires
        call_ensures(has_subscription, (capabilities,), yes),
        call_ensures(org_priority, (capabilities,), rank),
    ensures
        yes == subscribed(capabilities@.map_values(|text: String| text@)),
        rank == priority(capabilities@.map_values(|text: String| text@)),
{
    assert(texts(capabilities@) =~= capabilities@.map_values(|text: String| text@));
}

proof fn words_need_no_order(a: Seq<Seq<char>>, b: Seq<Seq<char>>, word: Seq<char>)
    requires
        forall|c: Seq<char>| a.contains(c) ==> b.contains(c),
        any_occurs(a, word),
    ensures
        any_occurs(b, word),
{
    let i = choose|i: int| 0 <= i < a.len() && occurs(#[trigger] a[i], word);
    assert(a.contains(a[i]));
    let k = choose|k: int| 0 <= k < b.len() && b[k] == a[i];
    assert(occurs(b[k], word));
}

/// The order of the capabilities, and how often each is listed, has no bearing
/// on the rank or on whether there is a subscription.
pub proof fn capabilities_need_no_order(a: Seq<Seq<char>>, b: Seq<Seq<char>>)
    requires
        forall|c: Seq<char>| a.contains(c) <==> b.contains(c),
    ensures
        priority(a) == priority(b),
        subscribed(a) == subscribed(b),
{
    assert forall|word: Seq<char>| #[trigger] any_occurs(a, word) == any_occurs(b, word) by {
        if any_occurs(a, word) {
            words_need_no_order(a, b, word);
        }
        if any_occurs(b, word) {
            words_need_no_order(b, a, word);
        }
    }
    ranks_go_by_words(a);
    ranks_go_by_words(b);
    a_subscription_may_stand_anywhere(a);
    a_subscription_may_stand_anywhere(b);
    assert(any_occurs(a, "max"@) == any_occurs(b, "max"@));
    assert(any_occurs(a, "pro"@) == any_occurs(b, "pro"@));
    assert(any_occurs(a, "enterprise"@) == any_occurs(b, "enterprise"@));
    assert(any_occurs(a, "raven"@) == any_occurs(b, "raven"@));
    assert(subscribed(a) == (any_occurs(a, "max"@) || any_occurs(a, "pro"@) || any_occurs(
        a,
        "enterprise"@,
    ) || any_occurs(a, "raven"@)));
    assert(subscribed(b) == (any_occurs(b, "max"@) || any_occurs(b, "pro"@) || any_occurs(
        b,
        "enterprise"@,
    ) || any_occurs(b, "raven"@)));
}

/// Of the items of an array the strings are kept, in order, and nothing else.
pub proof fn only_strings_are_kept(items: Seq<JsonView>, item: JsonView)
    ensures
        strings_among(Seq::empty()).len() == 0,
        strings_among(items.push(item)) == match item {
            JsonView::Text(text) => strings_among(items).push(text),
            _ => strings_among(items),
        },
{
    assert(items.push(item).drop_last() =~= items);
}

/// The strings that the member `capabilities` of an organization lists.
pub open spec fn listed_capabilities(organization: JsonView) -> Seq<Seq<char>> {
    match organization.get("capabilities"@) {
        Some(JsonView::Array(items)) => strings_among(items),
        _ => Seq::empty(),
    }
}

/// A membership counts where its `organization` is an object that lists the
/// capability `chat` and has a text for its `uuid`: it is then known by both.
pub proof fn memberships_count_where_they_can_chat(membership: JsonView)
    ensures
        candidate(membership) == match membership.get("organization"@) {
            Some(JsonView::Object(members)) => {
                let organization = JsonView::Object(members);
                if listed_capabilities(organization).contains("chat"@) {
                    match organization.get("uuid"@) {
                        Some(JsonView::Text(uuid)) => Some(
                            OrganizationView {
                                uuid,
                                capabilities: listed_capabilities(organization),
                            },
                        ),
                        _ => None,
                    }
                } else {
                    None
                }
            },
            _ => None,
        },
{
}

/// The organizations are those of the memberships that count, in their order.
pub proof fn organizations_follow_the_memberships(memberships: Seq<JsonView>, membership: JsonView)
    ensures
        candidates(Seq::empty()).len() == 0,
        candidates(memberships.push(membership)) == match candidate(membership) {
            Some(organization) => candidates(memberships).push(organization),
            None => candidates(memberships),
        },
{
    assert(memberships.push(membership).drop_last() =~= memberships);
}

/// The memberships of an account.
pub open spec fn memberships_of(bootstrap: JsonView) -> Option<Seq<JsonView>> {
    match bootstrap.get("account"@) {
        Some(account) => match account.get("memberships"@) {
            Some(JsonView::Array(items)) => Some(items),
            _ => None,
        },
        None => None,
    }
}

/// An account is refused as null exactly where its memberships are missing or
/// none of them counts, and as free exactly where some count and no capability
/// of any of them tells of a subscription. Otherwise every organization that
/// counts is tried.
pub proof fn accounts_are_refused_for_cause(bootstrap: JsonView)
    ensures
        organizations_of(bootstrap) == Err::<Seq<OrganizationView>, _>(Reason::Null) <==> (
        memberships_of(bootstrap) is None || candidates(memberships_of(bootstrap)->0).len() == 0),
        organizations_of(bootstrap) == Err::<Seq<OrganizationView>, _>(Reason::Free) <==> {
            &&& memberships_of(bootstrap) is Some
            &&& candidates(memberships_of(bootstrap)->0).len() > 0
            &&& forall|i: int, k: int|
                #![trigger candidates(memberships_of(bootstrap)->0)[i].capabilities[k]]
                0 <= i < candidates(memberships_of(bootstrap)->0).len() && 0 <= k < candidates(
                    memberships_of(bootstrap)->0,
                )[i].capabilities.len() ==> {
                    let capability = candidates(memberships_of(bootstrap)->0)[i].capabilities[k];
                    &&& !occurs(capability, "pro"@)
                    &&& !occurs(capability, "enterprise"@)
                    &&& !occurs(capability, "raven"@)
                    &&& !occurs(capability, "max"@)
                }
        },
        organizations_of(bootstrap) matches Ok(list) ==> list == ranked(
            candidates(memberships_of(bootstrap)->0),
        ),
{
    if let Some(memberships) = memberships_of(bootstrap) {
        let found = candidates(memberships);
        assert forall|i: int| 0 <= i < found.len() implies (subscribed(
            (#[trigger] found[i]).capabilities,
        ) <==> exists|k: int|
            0 <= k < found[i].capabilities.len() && {
                ||| occurs(#[trigger] found[i].capabilities[k], "pro"@)
                ||| occurs(found[i].capabilities[k], "enterprise"@)
                ||| occurs(found[i].capabilities[k], "raven"@)
                ||| occurs(found[i].capabilities[k], "max"@)
            }) by {
            a_subscription_may_stand_anywhere(found[i].capabilities);
        }
        if !any_subscribed(found) {
            assert forall|i: int, k: int|
                #![trigger found[i].capabilities[k]]
                0 <= i < found.len() && 0 <= k < found[i].capabilities.len() implies {
                let capability = found[i].capabilities[k];
                &&& !occurs(capability, "pro"@)
                &&& !occurs(capability, "enterprise"@)
                &&& !occurs(capability, "raven"@)
                &&& !occurs(capability, "max"@)
            } by {
                assert(!subscribed(found[i].capabilities));
            }
        }
    }
}

/// The ranks of a sorted list.
pub proof fn ranks_are_told_by_priority(organization: OrganizationView, rank: u8)
    ensures
        has_rank(rank)(organization) <==> priority(organization.capabilities) == rank,
{
}

/// The view of an organization, and of a list of them, is what they hold.
pub proof fn organizations_are_what_they_hold(organization: Organization, list: Seq<Organization>)
    ensures
        organization@.uuid == organization.uuid@,
        organization@.capabilities == organization.capabilities@.map_values(|text: String| text@),
        organization_views(list) == list.map_values(|o: Organization| o@),
{
    assert(organization@.capabilities =~= organization.capabilities@.map_values(
        |text: String| text@,
    ));
    assert(organization_views(list) =~= list.map_values(|o: Organization| o@));
}

/// Sorting, and reading the organizations of an account, give what is told of
/// their views.
pub proof fn organizations_are_sorted_and_read(
    list: Vec<Organization>,
    sorted: Vec<Organization>,
    bootstrap: Json,
    result: Result<Vec<Organization>, Reason>,
)
    requires
        call_ensures(rank, (list,), sorted),
        call_ensures(organizations, (&bootstrap,), result),
    ensures
        organization_views(sorted@) == ranked(organization_views(list@)),
        match organizations_of(bootstrap@) {
            Ok(views) => result matches Ok(read) && organization_views(read@) == views,
            Err(why) => result matches Err(reason) && reason == why,
        },
{
}

/// The e-mail address of an account, empty where it is no text.
pub open spec fn address_of(bootstrap: JsonView) -> Seq<char> {
    match bootstrap.get("account"@) {
        Some(account) => match account.get("email_address"@) {
            Some(JsonView::Text(email)) => email,
            _ => Seq::empty(),
        },
        None => Seq::empty(),
    }
}

/// One organization in words: its identifier, and its capabilities in brackets.
pub open spec fn in_words(organization: OrganizationView) -> Seq<char> {
    organization.uuid + " ["@ + joined(organization.capabilities, ","@) + "]"@
}

/// An account that is not refused is reported with the identifiers of its
/// organizations in the order in which they are tried, its address, and the
/// organizations in words; one that is, with the reason; and a body that is no
/// document, with the words of the reader.
pub proof fn accounts_are_reported_as_they_are(
    document: Result<JsonView, Seq<char>>,
    result: Result<AccountReport, ClewdrError>,
)
    requires
        account_read(document, result),
    ensures
        match document {
            Ok(bootstrap) => match organizations_of(bootstrap) {
                Ok(list) => result matches Ok(report) && {
                    &&& report.uuids@.len() == list.len()
                    &&& forall|i: int| 0 <= i < list.len() ==> #[trigger] report.uuids@[i]@
                        == list[i].uuid
                    &&& report.email@ == address_of(bootstrap)
                    &&& report.listing@ == joined(
                        list.map_values(|organization: OrganizationView| in_words(organization)),
                        ", "@,
                    )
                },
                Err(why) => result matches Err(ClewdrError::InvalidCookie { reason }) && reason
                    == why,
            },
            Err(why) => result matches Err(ClewdrError::WreqError { msg, source }) && msg
                == "Failed to parse bootstrap response" && source@ == why,
        },
{
    if let Ok(bootstrap) = document {
        if let Ok(list) = organizations_of(bootstrap) {
            let report = result->Ok_0;
            assert(texts(report.uuids@).len() == report.uuids@.len());
            assert forall|i: int| 0 <= i < list.len() implies #[trigger] report.uuids@[i]@
                == list[i].uuid by {
                assert(texts(report.uuids@)[i] == report.uuids@[i]@);
            }
            assert(list.map_values(|organization: OrganizationView| in_words(organization))
                =~= list.map_values(|organization: OrganizationView| described(organization)));
        }
    }
}

/// The report is on the document that was read, or on the one that the body is.
pub proof fn reports_are_on_what_was_read(
    document: Result<Json, String>,
    read: Result<AccountReport, ClewdrError>,
    body: &[u8],
    fetched: Result<AccountReport, ClewdrError>,
)
    requires
        call_ensures(read_account, (document,), read),
        call_ensures(ClaudeCodeState::get_organizations, (body,), fetched),
    ensures
        match document {
            Ok(json) => account_read(Ok(json@), read),
            Err(why) => account_read(Err(why@), read),
        },
        account_read(json_document(body@), fetched),
{
}

/// The rank of an organization follows from its place.
proof fn rank_by_place(list: Seq<OrganizationView>, i: int)
    requires
        0 <= i < ranked(list).len(),
    ensures
        ({
            let a = list.filter(has_rank(0)).len();
            let b = a + list.filter(has_rank(1)).len();
            let c = b + list.filter(has_rank(2)).len();
            priority(ranked(list)[i].capabilities) == if i < a {
                0u8
            } else if i < b {
                1u8
            } else if i < c {
                2u8
            } else {
                3u8
            }
        }),
{
    let a = list.filter(has_rank(0));
    let b = list.filter(has_rank(1));
    let c = list.filter(has_rank(2));
    let d = list.filter(has_rank(3));
    if i < a.len() {
        list.lemma_filter_pred(has_rank(0), i);
        assert(ranked(list)[i] == a[i]);
    } else if i < a.len() + b.len() {
        list.lemma_filter_pred(has_rank(1), i - a.len());
        assert(ranked(list)[i] == b[i - a.len()]);
    } else if i < a.len() + b.len() + c.len() {
        list.lemma_filter_pred(has_rank(2), i - a.len() - b.len());
        assert(ranked(list)[i] == c[i - a.len() - b.len()]);
    } else {
        list.lemma_filter_pred(has_rank(3), i - a.len() - b.len() - c.len());
        assert(ranked(list)[i] == d[i - a.len() - b.len() - c.len()]);
    }
}

/// What has one rank has no other.
proof fn filter_twice(list: Seq<OrganizationView>, first: u8, second: u8)
    ensures
        list.filter(has_rank(first)).filter(has_rank(second)) == if first == second {
            list.filter(has_rank(first))
        } else {
            Seq::empty()
        },
    decreases list.len(),
{
    reveal(Seq::filter);
    if list.len() > 0 {
        let init = list.drop_last();
        filter_twice(init, first, second);
        let kept = init.filter(has_rank(first));
        if priority(list.last().capabilities) == first {
            assert(kept.push(list.last()).drop_last() =~= kept);
        }
    }
}

} // verus!
