//! The organizations of a chat account, in the order in which they are tried
//! for authorization.
use crate::error::{ClewdrError, Reason};
use crate::json::{item_views, json_document, parse, Json, JsonView};
use crate::text::{contains, join, joined, occurs, texts};
use vstd::prelude::*;

verus! {

/// An organization that can chat.
#[derive(Debug)]
pub struct Organization {
    pub uuid: String,
    pub capabilities: Vec<String>,
}

/// An organization as a mathematical value.
#[verifier::ext_equal]
pub struct OrganizationView {
    pub uuid: Seq<char>,
    pub capabilities: Seq<Seq<char>>,
}

impl View for Organization {
    type V = OrganizationView;

    open spec fn view(&self) -> OrganizationView {
        OrganizationView { uuid: self.uuid@, capabilities: texts(self.capabilities@) }
    }
}

pub open spec fn organization_views(list: Seq<Organization>) -> Seq<OrganizationView> {
    list.map_values(|organization: Organization| organization@)
}

/// Some capability mentions `word`.
pub open spec fn mentions(capabilities: Seq<Seq<char>>, word: Seq<char>) -> bool {
    exists|i: int| 0 <= i < capabilities.len() && occurs(#[trigger] capabilities[i], word)
}

/// The capabilities of a usable subscription: a personal one, or that of a
/// team or an enterprise.
pub open spec fn subscribed(capabilities: Seq<Seq<char>>) -> bool {
    ||| mentions(capabilities, "pro"@)
    ||| mentions(capabilities, "enterprise"@)
    ||| mentions(capabilities, "raven"@)
    ||| mentions(capabilities, "max"@)
}

/// The rank of an organization among those to be tried. Personal
/// subscriptions come first, for team and enterprise organizations often do
/// not allow the personal authorization.
pub open spec fn priority(capabilities: Seq<Seq<char>>) -> u8 {
    if mentions(capabilities, "max"@) {
        0
    } else if mentions(capabilities, "pro"@) {
        1
    } else if subscribed(capabilities) {
        2
    } else {
        3
    }
}

/// The strings among the items of an array, in order.
pub open spec fn strings_among(items: Seq<JsonView>) -> Seq<Seq<char>>
    decreases items.len(),
{
    if items.len() == 0 {
        Seq::empty()
    } else {
        let before = strings_among(items.drop_last());
        match items.last().as_text() {
            Some(text) => before.push(text),
            None => before,
        }
    }
}

/// The capabilities of an organization; none where they are not listed.
pub open spec fn capabilities_of(organization: JsonView) -> Seq<Seq<char>> {
    match organization.get("capabilities"@) {
        Some(value) => match value.as_items() {
            Some(items) => strings_among(items),
            None => Seq::empty(),
        },
        None => Seq::empty(),
    }
}

/// The organization of a membership, if it can chat and has an identifier.
pub open spec fn candidate(membership: JsonView) -> Option<OrganizationView> {
    let organization = membership.at("organization"@);
    if organization is Object && capabilities_of(organization).contains("chat"@) {
        match organization.get("uuid"@) {
            Some(value) => match value.as_text() {
                Some(uuid) => Some(
                    OrganizationView { uuid, capabilities: capabilities_of(organization) },
                ),
                None => None,
            },
            None => None,
        }
    } else {
        None
    }
}

/// The organizations that can chat, in the order of the memberships.
pub open spec fn candidates(memberships: Seq<JsonView>) -> Seq<OrganizationView>
    decreases memberships.len(),
{
    if memberships.len() == 0 {
        Seq::empty()
    } else {
        let before = candidates(memberships.drop_last());
        match candidate(memberships.last()) {
            Some(organization) => before.push(organization),
            None => before,
        }
    }
}

/// Some organization has a usable subscription.
pub open spec fn any_subscribed(list: Seq<OrganizationView>) -> bool {
    exists|i: int| 0 <= i < list.len() && subscribed((#[trigger] list[i]).capabilities)
}

proof fn any_subscribed_push(list: Seq<OrganizationView>, next: OrganizationView)
    ensures
        any_subscribed(list.push(next)) == (any_subscribed(list) || subscribed(next.capabilities)),
{
    let longer = list.push(next);
    assert(longer[list.len() as int] == next);
    assert(forall|i: int| 0 <= i < list.len() ==> longer[i] == list[i]);
}

/// Has the rank `rank`.
pub open spec fn has_rank(rank: u8) -> spec_fn(OrganizationView) -> bool {
    |organization: OrganizationView| priority(organization.capabilities) == rank
}

/// The organizations by rank, and within a rank in their order.
pub open spec fn ranked(list: Seq<OrganizationView>) -> Seq<OrganizationView> {
    list.filter(has_rank(0)) + list.filter(has_rank(1)) + list.filter(has_rank(2)) + list.filter(
        has_rank(3),
    )
}

/// The organizations of an account that are to be tried, in order.
pub open spec fn organizations_of(bootstrap: JsonView) -> Result<Seq<OrganizationView>, Reason> {
    let account = bootstrap.at("account"@);
    match account.at("memberships"@).as_items() {
        Some(memberships) => {
            let found = candidates(memberships);
            if found.len() == 0 {
                Err(Reason::Null)
            } else if !any_subscribed(found) {
                Err(Reason::Free)
            } else {
                Ok(ranked(found))
            }
        },
        None => Err(Reason::Null),
    }
}

/// The e-mail address of an account; empty where it is not given.
pub open spec fn email_of(bootstrap: JsonView) -> Seq<char> {
    match bootstrap.at("account"@).at("email_address"@).as_text() {
        Some(email) => email,
        None => Seq::empty(),
    }
}

/// One organization in words: its identifier and its capabilities.
pub open spec fn described(organization: OrganizationView) -> Seq<char> {
    organization.uuid + " ["@ + joined(organization.capabilities, ","@) + "]"@
}

/// Organizations in words.
pub open spec fn listed(list: Seq<OrganizationView>) -> Seq<char> {
    joined(list.map_values(|organization: OrganizationView| described(organization)), ", "@)
}

/// Whether some capability mentions `word`.
fn any_mention(capabilities: &[String], word: &str) -> (found: bool)
    ensures
        found == mentions(texts(capabilities@), word@),
{
    let mut i: usize = 0;
    while i < capabilities.len()
        invariant
            i <= capabilities@.len(),
            forall|k: int| 0 <= k < i ==> !occurs(#[trigger] texts(capabilities@)[k], word@),
        decreases capabilities@.len() - i,
    {
        assert(texts(capabilities@)[i as int] == capabilities@[i as int]@);
        if contains(capabilities[i].as_str(), word) {
            return true;
        }
        i += 1;
    }
    false
}

/// Whether the capabilities are those of a usable subscription.
pub fn has_subscription(capabilities: &[String]) -> (yes: bool)
    ensures
        yes == subscribed(texts(capabilities@)),
{
    any_mention(capabilities, "pro") || any_mention(capabilities, "enterprise") || any_mention(
        capabilities,
        "raven",
    ) || any_mention(capabilities, "max")
}

/// The rank of an organization among those to be tried; the lowest is tried
/// first.
pub fn org_priority(capabilities: &[String]) -> (rank: u8)
    ensures
        rank == priority(texts(capabilities@)),
{
    if any_mention(capabilities, "max") {
        0
    } else if any_mention(capabilities, "pro") {
        1
    } else if has_subscription(capabilities) {
        2
    } else {
        3
    }
}

/// The strings among the items of an array.
fn collect_strings(items: &Vec<Json>) -> (strings: Vec<String>)
    requires
        item_views(items@).len() == items@.len(),
        forall|i: int| 0 <= i < items@.len() ==> #[trigger] item_views(items@)[i] == items@[i]@,
    ensures
        texts(strings@) == strings_among(item_views(items@)),
{
    let ghost views = item_views(items@);
    let mut strings: Vec<String> = Vec::new();
    let mut i: usize = 0;
    assert(views.take(0) =~= Seq::empty());
    assert(texts(strings@) =~= Seq::empty());
    while i < items.len()
        invariant
            i <= items@.len(),
            views == item_views(items@),
            views.len() == items@.len(),
            forall|k: int| 0 <= k < items@.len() ==> #[trigger] views[k] == items@[k]@,
            texts(strings@) == strings_among(views.take(i as int)),
        decreases items@.len() - i,
    {
        let ghost before = texts(strings@);
        assert(views.take(i + 1).drop_last() =~= views.take(i as int));
        assert(views.take(i + 1).last() == items@[i as int]@);
        if let Some(text) = items[i].as_str() {
            strings.push(text.to_owned());
            assert(texts(strings@) =~= before.push(text@));
        }
        i += 1;
    }
    assert(views.take(i as int) =~= views);
    strings
}

/// Whether `word` is one of the capabilities.
fn lists(capabilities: &Vec<String>, word: &str) -> (found: bool)
    ensures
        found == texts(capabilities@).contains(word@),
{
    let wanted = word.to_owned();
    let mut i: usize = 0;
    while i < capabilities.len()
        invariant
            i <= capabilities@.len(),
            wanted@ == word@,
            forall|k: int| 0 <= k < i ==> #[trigger] texts(capabilities@)[k] != word@,
        decreases capabilities@.len() - i,
    {
        assert(texts(capabilities@)[i as int] == capabilities@[i as int]@);
        if capabilities[i] == wanted {
            return true;
        }
        i += 1;
    }
    false
}

/// The organization of a membership, if it can chat and has an identifier.
fn read_candidate(membership: &Json) -> (found: Option<Organization>)
    ensures
        match found {
            Some(organization) => candidate(membership@) == Some(organization@),
            None => candidate(membership@) is None,
        },
{
    let organization = match membership.get("organization") {
        Some(value) => value,
        None => {
            return None;
        },
    };
    if !organization.is_object() {
        return None;
    }
    let capabilities = match organization.get("capabilities") {
        Some(value) => match value.as_array() {
            Some(items) => collect_strings(items),
            None => Vec::new(),
        },
        None => Vec::new(),
    };
    assert(texts(capabilities@) =~= capabilities_of(organization@));
    if !lists(&capabilities, "chat") {
        return None;
    }
    match organization.get("uuid") {
        Some(value) => match value.as_str() {
            Some(uuid) => Some(Organization { uuid: uuid.to_owned(), capabilities }),
            None => None,
        },
        None => None,
    }
}

/// Sorts organizations by rank, keeping their order within a rank.
pub fn rank(list: Vec<Organization>) -> (sorted: Vec<Organization>)
    ensures
        organization_views(sorted@) == ranked(organization_views(list@)),
{
    let ghost views = organization_views(list@);
    let mut max: Vec<Organization> = Vec::new();
    let mut pro: Vec<Organization> = Vec::new();
    let mut team: Vec<Organization> = Vec::new();
    let mut free: Vec<Organization> = Vec::new();
    proof {
        reveal(Seq::filter);
        assert(views.take(0) =~= Seq::empty());
    }
    for organization in it: list
        invariant
            it.seq() == list@,
            views == organization_views(list@),
            organization_views(max@) == views.take(it.index() as int).filter(has_rank(0)),
            organization_views(pro@) == views.take(it.index() as int).filter(has_rank(1)),
            organization_views(team@) == views.take(it.index() as int).filter(has_rank(2)),
            organization_views(free@) == views.take(it.index() as int).filter(has_rank(3)),
    {
        let ghost at = it.index() as int;
        let ghost buckets = (
            organization_views(max@),
            organization_views(pro@),
            organization_views(team@),
            organization_views(free@),
        );
        proof {
            reveal(Seq::filter);
            assert(views.take(at + 1).drop_last() =~= views.take(at));
            assert(views.take(at + 1).last() == organization@);
        }
        let rank = org_priority(organization.capabilities.as_slice());
        if rank == 0 {
            max.push(organization);
            assert(organization_views(max@) =~= buckets.0.push(organization@));
        } else if rank == 1 {
            pro.push(organization);
            assert(organization_views(pro@) =~= buckets.1.push(organization@));
        } else if rank == 2 {
            team.push(organization);
            assert(organization_views(team@) =~= buckets.2.push(organization@));
        } else {
            free.push(organization);
            assert(organization_views(free@) =~= buckets.3.push(organization@));
        }
    }
    assert(views.take(views.len() as int) =~= views);
    let mut sorted = max;
    sorted.append(&mut pro);
    sorted.append(&mut team);
    sorted.append(&mut free);
    assert(organization_views(sorted@) =~= ranked(views));
    sorted
}

/// The organizations of an account that are to be tried, in order. There are
/// none where the account or its memberships are missing or no organization
/// can chat; and none of use where no organization has a subscription.
pub fn organizations(bootstrap: &Json) -> (result: Result<Vec<Organization>, Reason>)
    ensures
        match result {
            Ok(list) => organizations_of(bootstrap@) == Ok::<_, Reason>(organization_views(list@)),
            Err(reason) => organizations_of(bootstrap@) == Err::<Seq<OrganizationView>, _>(reason),
        },
{
    let memberships = match bootstrap.get("account") {
        Some(account) => match account.get("memberships") {
            Some(value) => match value.as_array() {
                Some(items) => items,
                None => {
                    return Err(Reason::Null);
                },
            },
            None => {
                return Err(Reason::Null);
            },
        },
        None => {
            return Err(Reason::Null);
        },
    };
    let ghost views = item_views(memberships@);
    let mut found: Vec<Organization> = Vec::new();
    let mut usable = false;
    let mut i: usize = 0;
    assert(views.take(0) =~= Seq::empty());
    assert(organization_views(found@) =~= Seq::empty());
    while i < memberships.len()
        invariant
            i <= memberships@.len(),
            views == item_views(memberships@),
            views.len() == memberships@.len(),
            forall|k: int| 0 <= k < memberships@.len() ==> #[trigger] views[k] == memberships@[k]@,
            organization_views(found@) == candidates(views.take(i as int)),
            usable == any_subscribed(organization_views(found@)),
        decreases memberships@.len() - i,
    {
        let ghost before = organization_views(found@);
        assert(views.take(i + 1).drop_last() =~= views.take(i as int));
        assert(views.take(i + 1).last() == memberships@[i as int]@);
        if let Some(organization) = read_candidate(&memberships[i]) {
            if has_subscription(organization.capabilities.as_slice()) {
                usable = true;
            }
            found.push(organization);
            assert(organization_views(found@) =~= before.push(organization@));
            proof {
                any_subscribed_push(before, organization@);
            }
        }
        i += 1;
    }
    assert(views.take(i as int) =~= views);
    assert(organization_views(found@).len() == found@.len());
    if found.len() == 0 {
        return Err(Reason::Null);
    }
    if !usable {
        return Err(Reason::Free);
    }
    Ok(rank(found))
}

/// What is known of an account: the identifiers of the organizations to be
/// tried, in order, its e-mail address, and the organizations in words.
#[derive(Debug)]
pub struct AccountReport {
    pub uuids: Vec<String>,
    pub email: String,
    pub listing: String,
}

/// The e-mail address of an account.
fn read_email(bootstrap: &Json) -> (email: String)
    ensures
        email@ == email_of(bootstrap@),
{
    if let Some(account) = bootstrap.get("account") {
        if let Some(value) = account.get("email_address") {
            if let Some(email) = value.as_str() {
                return email.to_owned();
            }
        }
    }
    String::new()
}

/// One organization in words.
fn describe(organization: &Organization) -> (text: String)
    ensures
        text@ == described(organization@),
{
    let mut text = organization.uuid.clone();
    text.append(" [");
    text.append(join(&organization.capabilities, ",").as_str());
    text.append("]");
    text
}

/// The identifiers of organizations, in order.
pub open spec fn uuids_of(list: Seq<OrganizationView>) -> Seq<Seq<char>> {
    list.map_values(|organization: OrganizationView| organization.uuid)
}

/// Reports on an account.
fn report(email: String, list: Vec<Organization>) -> (made: AccountReport)
    ensures
        made.email == email,
        texts(made.uuids@) == uuids_of(organization_views(list@)),
        made.listing@ == listed(organization_views(list@)),
{
    let ghost views = organization_views(list@);
    let ghost words = |organization: OrganizationView| described(organization);
    let mut uuids: Vec<String> = Vec::new();
    let mut lines: Vec<String> = Vec::new();
    let mut i: usize = 0;
    assert(texts(uuids@) =~= uuids_of(views).take(0));
    assert(texts(lines@) =~= views.map_values(words).take(0));
    while i < list.len()
        invariant
            i <= list@.len(),
            views == organization_views(list@),
            words == (|organization: OrganizationView| described(organization)),
            texts(uuids@) == uuids_of(views).take(i as int),
            texts(lines@) == views.map_values(words).take(i as int),
        decreases list@.len() - i,
    {
        let ghost before = (texts(uuids@), texts(lines@));
        assert(views[i as int] == list@[i as int]@);
        uuids.push(list[i].uuid.clone());
        lines.push(describe(&list[i]));
        assert(texts(uuids@) =~= before.0.push(views[i as int].uuid));
        assert(texts(lines@) =~= before.1.push(described(views[i as int])));
        assert(texts(uuids@) =~= uuids_of(views).take(i + 1));
        assert(texts(lines@) =~= views.map_values(words).take(i + 1));
        i += 1;
    }
    assert(uuids_of(views).take(i as int) =~= uuids_of(views));
    assert(views.map_values(words).take(i as int) =~= views.map_values(words));
    let listing = join(&lines, ", ");
    AccountReport { uuids, email, listing }
}

/// A chat account that is about to be authorized.
pub struct ClaudeCodeState;

/// The outcome of reading an account from its bootstrap document, or from the
/// words in which the body was found to be none.
pub open spec fn account_read(
    document: Result<JsonView, Seq<char>>,
    result: Result<AccountReport, ClewdrError>,
) -> bool {
    match document {
        Ok(bootstrap) => match organizations_of(bootstrap) {
            Ok(list) => result matches Ok(made) && {
                &&& texts(made.uuids@) == uuids_of(list)
                &&& made.email@ == email_of(bootstrap)
                &&& made.listing@ == listed(list)
            },
            Err(reason) => result == Err::<AccountReport, _>(ClewdrError::InvalidCookie { reason }),
        },
        Err(why) => result matches Err(ClewdrError::WreqError { msg, source }) && msg
            == "Failed to parse bootstrap response" && source@ == why,
    }
}

/// Reads an account from its bootstrap document.
pub fn read_account(document: Result<Json, String>) -> (result: Result<AccountReport, ClewdrError>)
    ensures
        match document {
            Ok(bootstrap) => account_read(Ok(bootstrap@), result),
            Err(why) => account_read(Err(why@), result),
        },
{
    match document {
        Ok(bootstrap) => match organizations(&bootstrap) {
            Ok(list) => {
                let email = read_email(&bootstrap);
                Ok(report(email, list))
            },
            Err(reason) => Err(ClewdrError::InvalidCookie { reason }),
        },
        Err(source) => Err(
            ClewdrError::WreqError { msg: "Failed to parse bootstrap response", source },
        ),
    }
}

impl ClaudeCodeState {
    /// Reads the organizations of an account from the body of its bootstrap.
    /// The caller should try them in turn, for the first may have been
    /// cancelled or may not allow the authorization.
    pub fn get_organizations(body: &[u8]) -> (result: Result<AccountReport, ClewdrError>)
        ensures
            account_read(json_document(body@), result),
    {
        read_account(parse(body))
    }
}

} // verus!
