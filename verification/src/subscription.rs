//! Read-only subscription views (user side): the status label, the request
//! paths, the client-side buyer / provider and status filters.

use vstd::prelude::*;
use crate::text::{
    chars_of, contains_str, nat_text, push_str, str_eq, string_from_chars, strings_view, trim, trim_chars,
    u64_text,
};

verus! {

/// Role code of a user (buyer) agent.
pub const AGENT_ROLE_USER: i64 = 1;
/// Role code of a service-provider agent.
pub const AGENT_ROLE_ASP: i64 = 2;

/// The path prefix of the subscription endpoints.
pub const SUBSCRIBE_PREFIX: &'static str = "/priapi/v1/aieco/task/subscribe";

/// The viewpoint of a subscription listing.
#[derive(Debug, Clone, Copy, PartialEq, Eq)]
pub enum SubscriptionRole {
    Buyer,
    Provider,
}

impl SubscriptionRole {
    /// The role code used to pick the representative agent.
    pub fn agent_role(self) -> (r: i64)
        ensures
            r == (match self {
                SubscriptionRole::Buyer => AGENT_ROLE_USER,
                SubscriptionRole::Provider => AGENT_ROLE_ASP,
            }),
    {
        match self {
            SubscriptionRole::Buyer => AGENT_ROLE_USER,
            SubscriptionRole::Provider => AGENT_ROLE_ASP,
        }
    }
}

/// One subscription record: the wire fields verbatim plus the derived
/// `status_name`. Amounts stay decimal strings.
#[derive(Debug, Clone, Default, PartialEq, Eq)]
pub struct SubscriptionInfo {
    /// The primary key.
    pub job_id: String,
    /// 0 = task, 1 = subscription.
    pub job_type: i64,
    /// The raw status (see [`status_name`]).
    pub status: i64,
    /// The English status label, derived from `status`.
    pub status_name: String,
    pub chain_id: i64,
    pub title: String,
    pub description: String,
    pub description_summary: String,
    pub buyer_agent_id: String,
    pub buyer_agent_address: String,
    /// Empty before matching.
    pub provider_agent_id: String,
    pub provider_agent_address: String,
    /// 0 = not a trial, 1 = trial.
    pub trial_type: i64,
    /// Seconds since the epoch; absent when not a trial.
    pub trail_start_time: Option<i64>,
    /// Seconds since the epoch; absent when not a trial.
    pub trail_end_time: Option<i64>,
    pub sub_start_time: i64,
    pub sub_end_time: i64,
    /// `sub_end_time` plus one day.
    pub sub_buffer_end_time: i64,
    pub auto_renew: i64,
    pub copy_trade: i64,
    /// Starts at 1.
    pub period_index: i64,
    pub service_id: String,
    /// An opaque JSON string, passed through.
    pub service_params: String,
    pub service_token_address: String,
    pub service_token_amount: String,
    pub payment_token_address: String,
    pub payment_token_amount: String,
    pub payment_currency_amount: String,
    /// The receive devices: absent = every logged-in device (the default),
    /// empty = none, otherwise exactly these ids.
    pub device_list: Option<Vec<String>>,
    /// The subscribed signal categories; absent when not set.
    pub category_codes: Option<Vec<String>>,
    /// Whether this device receives the subscription's messages, derived
    /// from `device_list`.
    pub this_device_receives: bool,
}

/// Whether this device receives a subscription: every logged-in device does
/// when no list is set; with a list, this device must be known and on it.
pub open spec fn receives(device_list: Option<Seq<Seq<char>>>, this_device_id: Option<Seq<char>>) -> bool {
    match device_list {
        None => true,
        Some(l) => this_device_id matches Some(d) && l.contains(d),
    }
}

/// The view of an optional list of strings.
pub open spec fn opt_strings_view(o: Option<Vec<String>>) -> Option<Seq<Seq<char>>> {
    match o {
        Some(v) => Some(strings_view(v@)),
        None => None,
    }
}

/// Whether this device receives a subscription with this device list.
pub fn device_receives(device_list: &Option<Vec<String>>, this_device_id: Option<&str>) -> (r: bool)
    ensures
        r == receives(opt_strings_view(*device_list), match this_device_id {
            Some(d) => Some(d@),
            None => None,
        }),
{
    match device_list {
        None => true,
        Some(l) => match this_device_id {
            None => false,
            Some(d) => contains_str(l.as_slice(), d),
        },
    }
}

/// The strings of a decoded array, in order; elements that were not strings
/// (`None`) are dropped. An absent array stays absent.
pub open spec fn spec_str_array(items: Option<Seq<Option<Seq<char>>>>) -> Option<Seq<Seq<char>>> {
    match items {
        None => None,
        Some(v) => Some(v.filter(|x: Option<Seq<char>>| x is Some).map_values(|x: Option<Seq<char>>| x->0)),
    }
}

/// The view of a decoded array whose elements may not be strings.
pub open spec fn opt_items_view(items: Option<Vec<Option<String>>>) -> Option<Seq<Option<Seq<char>>>> {
    match items {
        None => None,
        Some(v) => Some(v@.map_values(|x: Option<String>| match x {
            Some(s) => Some(s@),
            None => None,
        })),
    }
}

/// Keeps the string elements of a decoded `deviceList` / `categoryCodes`
/// array, so that one odd element does not spoil the record.
pub fn normalize_str_array(items: Option<Vec<Option<String>>>) -> (r: Option<Vec<String>>)
    ensures
        opt_strings_view(r) == spec_str_array(opt_items_view(items)),
{
    match items {
        None => None,
        Some(v) => {
            let ghost src = v@.map_values(|x: Option<String>| match x {
                Some(s) => Some(s@),
                None => None,
            });
            let ghost pred = |x: Option<Seq<char>>| x is Some;
            let ghost f = |x: Option<Seq<char>>| x->0;
            let mut out: Vec<String> = Vec::new();
            let mut i: usize = 0;
            proof {
                reveal(Seq::filter);
                assert(src.take(0) =~= Seq::<Option<Seq<char>>>::empty());
                assert(src.take(0).filter(pred).map_values(f) =~= Seq::<Seq<char>>::empty());
            }
            while i < v.len()
                invariant
                    i <= v@.len(),
                    src == v@.map_values(|x: Option<String>| match x {
                        Some(s) => Some(s@),
                        None => None,
                    }),
                    pred == (|x: Option<Seq<char>>| x is Some),
                    f == (|x: Option<Seq<char>>| x->0),
                    strings_view(out@) == src.take(i as int).filter(pred).map_values(f),
                decreases v@.len() - i,
            {
                proof {
                    reveal(Seq::filter);
                    assert(src.take(i + 1).drop_last() =~= src.take(i as int));
                }
                let ghost before = out@;
                match &v[i] {
                    Some(t) => {
                        out.push(t.clone());
                        proof {
                            assert(src[i as int] == Some(t@));
                            assert(src.take(i + 1).filter(pred) =~= src.take(i as int).filter(pred).push(src[i as int]));
                            assert(strings_view(out@) =~= strings_view(before).push(t@));
                            let k = src.take(i as int).filter(pred);
                            assert(k.push(src[i as int]).map_values(f) =~= k.map_values(f).push(t@));
                        }
                    },
                    None => {
                        proof {
                            assert(src.take(i + 1).filter(pred) =~= src.take(i as int).filter(pred));
                        }
                    },
                }
                i = i + 1;
            }
            assert(src.take(v@.len() as int) =~= src);
            Some(out)
        },
    }
}

/// Marks on each record whether this device receives it; nothing else
/// changes.
pub fn mark_this_device(list: &mut Vec<SubscriptionInfo>, this_device_id: Option<&str>)
    ensures
        final(list)@.len() == old(list)@.len(),
        forall|i: int| 0 <= i < final(list)@.len() ==> {
            let a = #[trigger] final(list)@[i];
            let b = old(list)@[i];
            a.this_device_receives == receives(opt_strings_view(b.device_list), match this_device_id {
                Some(d) => Some(d@),
                None => None,
            }) && a == (SubscriptionInfo { this_device_receives: a.this_device_receives, ..b })
        },
{
    let mut i: usize = 0;
    while i < list.len()
        invariant
            i <= list@.len(),
            list@.len() == old(list)@.len(),
            forall|j: int| 0 <= j < i ==> {
                let a = #[trigger] list@[j];
                let b = old(list)@[j];
                a.this_device_receives == receives(opt_strings_view(b.device_list), match this_device_id {
                    Some(d) => Some(d@),
                    None => None,
                }) && a == (SubscriptionInfo { this_device_receives: a.this_device_receives, ..b })
            },
            forall|j: int| i <= j < list@.len() ==> #[trigger] list@[j] == old(list)@[j],
        decreases list@.len() - i,
    {
        let r = device_receives(&list[i].device_list, this_device_id);
        list[i].this_device_receives = r;
        i = i + 1;
    }
}

/// The decimal numeral of an integer, with `-` when negative.
pub open spec fn int_text(n: int) -> Seq<char> {
    if n < 0 {
        seq!['-'] + nat_text((-n) as nat)
    } else {
        nat_text(n as nat)
    }
}

/// The English label of a subscription status; `UNKNOWN_<n>` for any other
/// value.
pub open spec fn spec_status_name(status: i64) -> Seq<char> {
    if status == -1 {
        "INIT"@
    } else if status == 0 {
        "NONE"@
    } else if status == 1 {
        "ACTIVE"@
    } else if status == 2 {
        "REJECTED"@
    } else if status == 3 {
        "DISPUTED"@
    } else if status == 4 {
        "COMPLETED"@
    } else if status == 5 {
        "FAILED"@
    } else if status == 6 {
        "CLOSED"@
    } else {
        "UNKNOWN_"@ + int_text(status as int)
    }
}

/// The English status label derived from `status` alone.
pub fn status_name(status: i64) -> (r: String)
    ensures
        r@ == spec_status_name(status),
{
    let s: &str = if status == -1 {
        "INIT"
    } else if status == 0 {
        "NONE"
    } else if status == 1 {
        "ACTIVE"
    } else if status == 2 {
        "REJECTED"
    } else if status == 3 {
        "DISPUTED"
    } else if status == 4 {
        "COMPLETED"
    } else if status == 5 {
        "FAILED"
    } else if status == 6 {
        "CLOSED"
    } else {
        let mut v: Vec<char> = Vec::new();
        push_str(&mut v, "UNKNOWN_");
        if status < 0 {
            v.push('-');
            let mag: u64 = if status == i64::MIN {
                9223372036854775808u64
            } else {
                (-status) as u64
            };
            let d = u64_text(mag);
            let ghost before = v@;
            let mut i: usize = 0;
            while i < d.len()
                invariant
                    i <= d@.len(),
                    v@ == before + d@.take(i as int),
                decreases d@.len() - i,
            {
                v.push(d[i]);
                i = i + 1;
                assert(v@ =~= before + d@.take(i as int));
            }
            assert(d@.take(d@.len() as int) =~= d@);
            assert(v@ =~= "UNKNOWN_"@ + int_text(status as int));
        } else {
            let d = u64_text(status as u64);
            let ghost before = v@;
            let mut i: usize = 0;
            while i < d.len()
                invariant
                    i <= d@.len(),
                    v@ == before + d@.take(i as int),
                decreases d@.len() - i,
            {
                v.push(d[i]);
                i = i + 1;
                assert(v@ =~= before + d@.take(i as int));
            }
            assert(d@.take(d@.len() as int) =~= d@);
            assert(v@ =~= "UNKNOWN_"@ + int_text(status as int));
        }
        return string_from_chars(v.as_slice());
    };
    String::from_str(s)
}

/// The path of the caller's subscription list: no query string.
pub fn my_subscriptions_path() -> (r: String)
    ensures
        r@ == SUBSCRIBE_PREFIX@ + "/my"@,
{
    let mut v: Vec<char> = Vec::new();
    push_str(&mut v, SUBSCRIBE_PREFIX);
    push_str(&mut v, "/my");
    string_from_chars(v.as_slice())
}

/// The detail path of one subscription; a blank id is refused.
pub fn subscribe_detail_path(sub_id: &str) -> (r: Result<String, String>)
    ensures
        trim(sub_id@).len() == 0 ==> (r matches Err(m) && m@ == "<subId> must not be empty"@),
        trim(sub_id@).len() != 0 ==> (r matches Ok(p) && p@ == SUBSCRIBE_PREFIX@ + "/"@ + sub_id@),
{
    let v = chars_of(sub_id);
    if trim_chars(v.as_slice()).len() == 0 {
        return Err(String::from_str("<subId> must not be empty"));
    }
    let mut p: Vec<char> = Vec::new();
    push_str(&mut p, SUBSCRIBE_PREFIX);
    push_str(&mut p, "/");
    push_str(&mut p, sub_id);
    Ok(string_from_chars(p.as_slice()))
}

/// Whether a record belongs to the view: the buyer view keeps records bought
/// by the agent, the provider view records it provides; a status, when given,
/// must match the raw status.
pub open spec fn keeps(item: SubscriptionInfo, role: SubscriptionRole, agent: Seq<char>, status: Option<i32>) -> bool {
    &&& match role {
        SubscriptionRole::Buyer => item.buyer_agent_id@ == agent,
        SubscriptionRole::Provider => item.provider_agent_id@ == agent,
    }
    &&& match status {
        Some(s) => item.status == s as i64,
        None => true,
    }
}

fn keeps_exec(item: &SubscriptionInfo, role: SubscriptionRole, agent: &str, status: Option<i32>) -> (r: bool)
    ensures
        r == keeps(*item, role, agent@, status),
{
    let by_role = match role {
        SubscriptionRole::Buyer => str_eq(item.buyer_agent_id.as_str(), agent),
        SubscriptionRole::Provider => str_eq(item.provider_agent_id.as_str(), agent),
    };
    let by_status = match status {
        Some(s) => item.status == s as i64,
        None => true,
    };
    by_role && by_status
}

/// The client-side view and status filter over the flat list; order kept.
pub fn filter_subscriptions(
    list: Vec<SubscriptionInfo>,
    role: SubscriptionRole,
    self_agent_id: &str,
    status: Option<i32>,
) -> (r: Vec<SubscriptionInfo>)
    ensures
        r@ == list@.filter(|x: SubscriptionInfo| keeps(x, role, self_agent_id@, status)),
{
    let ghost pred = |x: SubscriptionInfo| keeps(x, role, self_agent_id@, status);
    let ghost orig = list@;
    let mut out: Vec<SubscriptionInfo> = Vec::new();
    proof {
        reveal(Seq::filter);
        assert(orig.take(0) =~= Seq::<SubscriptionInfo>::empty());
    }
    for item in it: list.into_iter()
        invariant
            it.seq() == orig,
            pred == (|x: SubscriptionInfo| keeps(x, role, self_agent_id@, status)),
            out@ == orig.take(it.index() as int).filter(pred),
    {
        let ghost k = it.index() as int;
        let ghost before = out@;
        proof {
            reveal(Seq::filter);
            assert(orig.take(k + 1).drop_last() =~= orig.take(k));
            assert(orig.take(k + 1).last() == orig[k]);
            assert(item == orig[k]);
        }
        let keep = keeps_exec(&item, role, self_agent_id, status);
        if keep {
            out.push(item);
        }
        proof {
            reveal(Seq::filter);
            assert(pred(orig[k]) == keep);
            assert(out@ =~= orig.take(k + 1).filter(pred));
        }
    }
    proof {
        assert(orig.take(orig.len() as int) =~= orig);
    }
    out
}

/// Fills in each record's `status_name` from its status.
pub fn name_statuses(list: &mut Vec<SubscriptionInfo>)
    ensures
        final(list)@.len() == old(list)@.len(),
        forall|i: int| 0 <= i < final(list)@.len() ==> {
            let a = #[trigger] final(list)@[i];
            let b = old(list)@[i];
            a.status_name@ == spec_status_name(b.status) && a == (SubscriptionInfo { status_name: a.status_name, ..b })
        },
{
    let mut i: usize = 0;
    while i < list.len()
        invariant
            i <= list@.len(),
            list@.len() == old(list)@.len(),
            forall|j: int| 0 <= j < i ==> {
                let a = #[trigger] list@[j];
                let b = old(list)@[j];
                a.status_name@ == spec_status_name(b.status) && a == (SubscriptionInfo { status_name: a.status_name, ..b })
            },
            forall|j: int| i <= j < list@.len() ==> #[trigger] list@[j] == old(list)@[j],
        decreases list@.len() - i,
    {
        let name = status_name(list[i].status);
        list[i].status_name = name;
        i = i + 1;
    }
}

/// The view keeps exactly the matching records: every kept record matches
/// the role and status and was in the list, and every matching record of the
/// list is kept (no record is made up).
pub proof fn lemma_filter_keeps_matches(list: Seq<SubscriptionInfo>, role: SubscriptionRole, agent: Seq<char>, status: Option<i32>)
    ensures
        ({
            let kept = list.filter(|x: SubscriptionInfo| keeps(x, role, agent, status));
            &&& forall|i: int| 0 <= i < kept.len() ==> keeps(#[trigger] kept[i], role, agent, status) && list.contains(kept[i])
            &&& forall|i: int| 0 <= i < list.len() && keeps(#[trigger] list[i], role, agent, status) ==> kept.contains(list[i])
        }),
{
    broadcast use vstd::seq_lib::group_filter_ensures;
    let pred = |x: SubscriptionInfo| keeps(x, role, agent, status);
    let kept = list.filter(pred);
    assert forall|i: int| 0 <= i < kept.len() implies keeps(#[trigger] kept[i], role, agent, status) && list.contains(kept[i]) by {
        assert(pred(kept[i]));
        assert(kept.contains(kept[i]));
        list.lemma_filter_contains_rev(pred, kept[i]);
    }
    assert forall|i: int| 0 <= i < list.len() && keeps(#[trigger] list[i], role, agent, status) implies kept.contains(list[i]) by {
        assert(pred(list[i]));
    }
}


/// Receipt on this device follows the tri-state device list: with no list
/// every device receives, an empty list sends to no device, and a list sends
/// to this device exactly when it names it (a device that cannot be
/// identified is on no list).
pub proof fn lemma_receipt_tri_state(l: Seq<Seq<char>>, d: Seq<char>)
    ensures
        receives(None, Some(d)),
        receives(None, None),
        !receives(Some(Seq::empty()), Some(d)),
        receives(Some(l), Some(d)) <==> (exists|i: int| 0 <= i < l.len() && l[i] == d),
        !receives(Some(l), None),
{
}

} // verus!
