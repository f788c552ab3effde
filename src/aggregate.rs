//! Stored polls and what is computed from them: averages of each channel by
//! minute buckets, and the channels that left tolerance within a trailing window.
use vstd::prelude::*;

use crate::voltage::{mb_state, Verify, VoltageChannel, VoltageData, VoltageState};

verus! {

/// The largest voltage or current a channel can hold.
pub const CHANNEL_VALUE_MAX: u32 = 0xFFFF_FFFF;

/// One of the two sides of the rig.
#[derive(Debug, Clone, Copy, Default, PartialEq, Eq, Structural)]
pub enum AB {
    #[default]
    A,
    B,
}

/// One poll of all meters of one side. Times and durations are in seconds;
/// the temperature is in tenths of a degree.
#[derive(Debug, Clone)]
pub struct VoltageDataGroup {
    pub time: u64,
    pub ab: AB,
    pub good_name: String,
    pub task_name: String,
    pub start_at: u64,
    pub task_age_time: u64,
    pub temperature: u16,
    pub data: Vec<VoltageData>,
}

/// A channel reading placed in time, with its index in the flattened list.
#[derive(Debug, Clone, Copy, PartialEq, Eq, Structural)]
pub struct VoltageChannelItem {
    pub index: usize,
    pub time: u64,
    pub ch: VoltageChannel,
}

// ---------------------------------------------------------------------------
// Flattening

/// The number of channels that meter `s` of a group spans with its group.
pub open spec fn span(group: VoltageDataGroup, s: int) -> int {
    (group.data@[s].data@.len() * group.data@.len()) as int
}

/// The items of meter `s` of the group at position `g`.
pub open spec fn slave_items(g: int, group: VoltageDataGroup, s: int) -> Seq<VoltageChannelItem> {
    let chs = group.data@[s].data@;
    Seq::new(
        chs.len(),
        |c: int|
            VoltageChannelItem {
                index: (g * span(group, s) + chs[c].index) as usize,
                time: group.time,
                ch: chs[c],
            },
    )
}

/// The items of the first `k` meters of the group at position `g`.
pub open spec fn group_items(g: int, group: VoltageDataGroup, k: int) -> Seq<VoltageChannelItem>
    decreases k,
{
    if k <= 0 {
        seq![]
    } else {
        group_items(g, group, k - 1) + slave_items(g, group, k - 1)
    }
}

/// Every channel of every group, in order.
pub open spec fn flat_items(groups: Seq<VoltageDataGroup>) -> Seq<VoltageChannelItem>
    decreases groups.len(),
{
    if groups.len() == 0 {
        seq![]
    } else {
        flat_items(groups.drop_last()) + group_items(
            groups.len() - 1,
            groups.last(),
            groups.last().data@.len() as int,
        )
    }
}

/// The largest span among the first `k` meters of a group.
pub open spec fn group_channel_len(group: VoltageDataGroup, k: int) -> int
    decreases k,
{
    if k <= 0 {
        0
    } else {
        let rest = group_channel_len(group, k - 1);
        if span(group, k - 1) > rest {
            span(group, k - 1)
        } else {
            rest
        }
    }
}

/// The number of channel series: the largest span over all groups.
pub open spec fn channel_len(groups: Seq<VoltageDataGroup>) -> int
    decreases groups.len(),
{
    if groups.len() == 0 {
        0
    } else {
        let rest = channel_len(groups.drop_last());
        let last = group_channel_len(groups.last(), groups.last().data@.len() as int);
        if last > rest {
            last
        } else {
            rest
        }
    }
}

/// The flattened indices of meter `s` of group `g` fit in a `usize`, and
/// so does the number of series that its channel indices call for.
pub open spec fn slave_fits(groups: Seq<VoltageDataGroup>, g: int, s: int) -> bool {
    let chs = groups[g].data@[s].data@;
    &&& span(groups[g], s) <= usize::MAX
    &&& forall|c: int|
        0 <= c < chs.len() ==> g * span(groups[g], s) + chs[c].index <= usize::MAX
            && chs[c].index < usize::MAX
}

/// The flattened indices fit in a `usize`.
pub open spec fn indices_fit(groups: Seq<VoltageDataGroup>) -> bool {
    forall|g: int, s: int|
        0 <= g < groups.len() && 0 <= s < groups[g].data@.len() ==> #[trigger] slave_fits(
            groups,
            g,
            s,
        )
}

/// The items of channel `idx` taken at or after `after`, in order.
pub open spec fn channel_series(
    items: Seq<VoltageChannelItem>,
    idx: int,
    after: int,
) -> Seq<VoltageChannelItem>
    decreases items.len(),
{
    if items.len() == 0 {
        seq![]
    } else {
        let rest = channel_series(items.drop_last(), idx, after);
        if items.last().ch.index == idx && items.last().time >= after {
            rest.push(items.last())
        } else {
            rest
        }
    }
}

/// The series of channels `0..k`, one after another.
pub open spec fn all_series(items: Seq<VoltageChannelItem>, k: int) -> Seq<VoltageChannelItem>
    decreases k,
{
    if k <= 0 {
        seq![]
    } else {
        all_series(items, k - 1) + channel_series(items, k - 1, 0)
    }
}

/// One past the largest channel index of the items; 0 for none.
pub open spec fn index_bound(items: Seq<VoltageChannelItem>) -> int
    decreases items.len(),
{
    if items.len() == 0 {
        0
    } else {
        let rest = index_bound(items.drop_last());
        if items.last().ch.index + 1 > rest {
            items.last().ch.index + 1
        } else {
            rest
        }
    }
}

/// The number of channel series: at least the largest span, and enough for
/// every channel index that occurs.
pub open spec fn series_count(groups: Seq<VoltageDataGroup>) -> int {
    let a = channel_len(groups);
    let b = index_bound(flat_items(groups));
    if b > a {
        b
    } else {
        a
    }
}

pub open spec fn sum_voltage(s: Seq<VoltageChannelItem>) -> int
    decreases s.len(),
{
    if s.len() == 0 {
        0
    } else {
        sum_voltage(s.drop_last()) + s.last().ch.voltage
    }
}

pub open spec fn sum_current(s: Seq<VoltageChannelItem>) -> int
    decreases s.len(),
{
    if s.len() == 0 {
        0
    } else {
        sum_current(s.drop_last()) + s.last().ch.current
    }
}

fn flatten_groups(groups: &Vec<VoltageDataGroup>) -> (r: (Vec<VoltageChannelItem>, usize))
    requires
        indices_fit(groups@),
    ensures
        r.0@ == flat_items(groups@),
        r.1 == channel_len(groups@),
        forall|j: int| 0 <= j < r.0@.len() ==> r.0@[j].ch.index < usize::MAX,
{
    let mut list: Vec<VoltageChannelItem> = Vec::new();
    let mut clen: usize = 0;
    let mut g: usize = 0;
    while g < groups.len()
        invariant
            g <= groups@.len(),
            indices_fit(groups@),
            list@ == flat_items(groups@.take(g as int)),
            clen == channel_len(groups@.take(g as int)),
            forall|j: int| 0 <= j < list@.len() ==> list@[j].ch.index < usize::MAX,
        decreases groups@.len() - g,
    {
        let group = &groups[g];
        let group_len = group.data.len();
        let ghost base = list@;
        let ghost base_len = clen as int;
        let mut s: usize = 0;
        while s < group_len
            invariant
                g < groups@.len(),
                *group == groups@[g as int],
                group_len == group.data@.len(),
                s <= group_len,
                indices_fit(groups@),
                list@ == base + group_items(g as int, *group, s as int),
                forall|j: int| 0 <= j < list@.len() ==> list@[j].ch.index < usize::MAX,
                clen == (if group_channel_len(*group, s as int) > base_len {
                    group_channel_len(*group, s as int)
                } else {
                    base_len
                }),
            decreases group_len - s,
        {
            let slave = &group.data[s];
            let n_ch = slave.data.len();
            proof {
                assert(groups@[g as int].data@[s as int] == *slave);
                assert(slave_fits(groups@, g as int, s as int));
            }
            let ch_len = n_ch * group_len;
            if ch_len > clen {
                clen = ch_len;
            }
            let ghost mid = list@;
            let mut c: usize = 0;
            while c < n_ch
                invariant
                    g < groups@.len(),
                    s < group_len,
                    *group == groups@[g as int],
                    group_len == group.data@.len(),
                    *slave == group.data@[s as int],
                    n_ch == slave.data@.len(),
                    ch_len == span(*group, s as int),
                    c <= n_ch,
                    indices_fit(groups@),
                    list@ == mid + slave_items(g as int, *group, s as int).take(c as int),
                    forall|j: int| 0 <= j < list@.len() ==> list@[j].ch.index < usize::MAX,
                decreases n_ch - c,
            {
                let ch = slave.data[c];
                proof {
                    assert(groups@[g as int].data@[s as int] == *slave);
                    assert(slave_fits(groups@, g as int, s as int));
                    assert(g * span(groups@[g as int], s as int) + slave.data@[c as int].index
                        <= usize::MAX);
                    assert(slave.data@[c as int].index < usize::MAX);
                }
                let item = VoltageChannelItem { index: g * ch_len + ch.index, time: group.time, ch };
                list.push(item);
                proof {
                    assert(slave_items(g as int, *group, s as int).take(c as int + 1)
                        =~= slave_items(g as int, *group, s as int).take(c as int).push(item));
                }
                c = c + 1;
            }
            proof {
                assert(slave_items(g as int, *group, s as int).take(n_ch as int)
                    =~= slave_items(g as int, *group, s as int));
                assert(list@ =~= base + group_items(g as int, *group, s as int + 1));
            }
            s = s + 1;
        }
        proof {
            let t = groups@.take(g as int + 1);
            assert(t.drop_last() =~= groups@.take(g as int));
            assert(t.last() == groups@[g as int]);
        }
        g = g + 1;
    }
    proof {
        assert(groups@.take(groups@.len() as int) =~= groups@);
    }
    (list, clen)
}

/// The number of channel series of a flattened list whose largest span is `clen`.
fn series_total(list: &Vec<VoltageChannelItem>, clen: usize) -> (r: usize)
    requires
        forall|j: int| 0 <= j < list@.len() ==> list@[j].ch.index < usize::MAX,
    ensures
        r == (if index_bound(list@) > clen {
            index_bound(list@)
        } else {
            clen as int
        }),
{
    let mut count: usize = clen;
    let mut i: usize = 0;
    while i < list.len()
        invariant
            i <= list@.len(),
            forall|j: int| 0 <= j < list@.len() ==> list@[j].ch.index < usize::MAX,
            count == (if index_bound(list@.take(i as int)) > clen {
                index_bound(list@.take(i as int))
            } else {
                clen as int
            }),
        decreases list@.len() - i,
    {
        let index = list[i].ch.index;
        proof {
            assert(list@.take(i as int + 1).drop_last() =~= list@.take(i as int));
        }
        if index + 1 > count {
            count = index + 1;
        }
        i = i + 1;
    }
    proof {
        assert(list@.take(list@.len() as int) =~= list@);
    }
    count
}

/// The sums stay within what a `u128` holds.
proof fn lemma_sums_bounded(s: Seq<VoltageChannelItem>)
    ensures
        0 <= sum_voltage(s) <= s.len() * CHANNEL_VALUE_MAX,
        0 <= sum_current(s) <= s.len() * CHANNEL_VALUE_MAX,
    decreases s.len(),
{
    if s.len() > 0 {
        lemma_sums_bounded(s.drop_last());
    }
}

proof fn lemma_series_len(items: Seq<VoltageChannelItem>, idx: int, after: int)
    ensures
        channel_series(items, idx, after).len() <= items.len(),
    decreases items.len(),
{
    if items.len() > 0 {
        lemma_series_len(items.drop_last(), idx, after);
    }
}

proof fn lemma_mean_bound(s: int, c: int)
    requires
        0 <= s <= c * CHANNEL_VALUE_MAX,
        c > 0,
    ensures
        0 <= s / c <= CHANNEL_VALUE_MAX,
{
    assert(0 <= s / c <= CHANNEL_VALUE_MAX) by (nonlinear_arith)
        requires
            0 <= s <= c * 4294967295,
            c > 0,
    ;
}

/// The count, voltage sum and current sum of the series of channel `idx`
/// from `after` on.
fn channel_totals(list: &Vec<VoltageChannelItem>, idx: usize, after: u64) -> (r: (
    usize,
    u128,
    u128,
))
    ensures
        r.0 == channel_series(list@, idx as int, after as int).len(),
        r.1 == sum_voltage(channel_series(list@, idx as int, after as int)),
        r.2 == sum_current(channel_series(list@, idx as int, after as int)),
{
    let mut count: usize = 0;
    let mut sv: u128 = 0;
    let mut si: u128 = 0;
    let mut i: usize = 0;
    while i < list.len()
        invariant
            i <= list@.len(),
            count == channel_series(list@.take(i as int), idx as int, after as int).len(),
            sv == sum_voltage(channel_series(list@.take(i as int), idx as int, after as int)),
            si == sum_current(channel_series(list@.take(i as int), idx as int, after as int)),
            count <= i,
        decreases list@.len() - i,
    {
        let it = list[i];
        proof {
            let t = list@.take(i as int + 1);
            assert(t.drop_last() =~= list@.take(i as int));
            let s = channel_series(list@.take(i as int), idx as int, after as int);
            lemma_sums_bounded(s);
            if it.ch.index == idx && it.time >= after {
                assert(s.push(it).drop_last() =~= s);
            }
        }
        if it.ch.index == idx && it.time >= after {
            count = count + 1;
            sv = sv + it.ch.voltage as u128;
            si = si + it.ch.current as u128;
        }
        i = i + 1;
    }
    proof {
        assert(list@.take(list@.len() as int) =~= list@);
    }
    (count, sv, si)
}

/// The items of channel `idx` from `after` on.
fn series_of(list: &Vec<VoltageChannelItem>, idx: usize, after: u64) -> (r: Vec<
    VoltageChannelItem,
>)
    ensures
        r@ == channel_series(list@, idx as int, after as int),
{
    let mut out: Vec<VoltageChannelItem> = Vec::new();
    let mut i: usize = 0;
    while i < list.len()
        invariant
            i <= list@.len(),
            out@ == channel_series(list@.take(i as int), idx as int, after as int),
        decreases list@.len() - i,
    {
        let it = list[i];
        proof {
            let t = list@.take(i as int + 1);
            assert(t.drop_last() =~= list@.take(i as int));
        }
        if it.ch.index == idx && it.time >= after {
            out.push(it);
        }
        i = i + 1;
    }
    proof {
        assert(list@.take(list@.len() as int) =~= list@);
    }
    out
}

// ---------------------------------------------------------------------------
// Defects in a trailing window

/// The averaged channel `idx` over a series, classified against `verify`.
/// Averages are rounded down to the microvolt and the microamp.
pub open spec fn window_channel(
    chs: Seq<VoltageChannelItem>,
    idx: int,
    verify: Verify,
) -> VoltageChannel {
    let v = (sum_voltage(chs) / chs.len() as int) as u32;
    let c = (sum_current(chs) / chs.len() as int) as u32;
    VoltageChannel { index: idx as usize, voltage: v, current: c, state: mb_state(v, c, verify) }
}

/// A series is evaluated when it holds at least one sample and at least
/// one sample per second of the window.
pub open spec fn eligible(chs: Seq<VoltageChannelItem>, secs: u64) -> bool {
    chs.len() > 0 && chs.len() >= secs
}

/// The defective channels among `0..k`.
pub open spec fn defects_from(
    items: Seq<VoltageChannelItem>,
    k: int,
    after: int,
    secs: u64,
    verify: Verify,
) -> Seq<VoltageChannel>
    decreases k,
{
    if k <= 0 {
        seq![]
    } else {
        let rest = defects_from(items, k - 1, after, secs, verify);
        let chs = channel_series(items, k - 1, after);
        if eligible(chs, secs) && window_channel(chs, k - 1, verify).state
            != VoltageState::Qualified {
            rest.push(window_channel(chs, k - 1, verify))
        } else {
            rest
        }
    }
}

/// The start of the window that ends at `now` and lasts `secs` seconds.
pub open spec fn window_start(now: u64, secs: u64) -> int {
    if now >= secs {
        now - secs
    } else {
        0
    }
}

/// The channels that are out of tolerance over the `secs` seconds up to `now`.
pub open spec fn defects_spec(
    groups: Seq<VoltageDataGroup>,
    now: u64,
    secs: u64,
    verify: Verify,
) -> Seq<VoltageChannel> {
    defects_from(flat_items(groups), series_count(groups), window_start(now, secs), secs, verify)
}

/// The channels whose average over the `secs` seconds up to `now` is not
/// `Qualified`, in channel order. A channel with fewer than `secs` samples
/// in the window, or none, is left out.
pub fn check_defective_in_secs(
    groups: Vec<VoltageDataGroup>,
    secs: u64,
    verify: &Verify,
    now: u64,
) -> (r: Vec<VoltageChannel>)
    requires
        indices_fit(groups@),
    ensures
        r@ == defects_spec(groups@, now, secs, *verify),
{
    let after: u64 = if now >= secs {
        now - secs
    } else {
        0
    };
    let (list, widest) = flatten_groups(&groups);
    let clen = series_total(&list, widest);
    let mut out: Vec<VoltageChannel> = Vec::new();
    let mut idx: usize = 0;
    while idx < clen
        invariant
            idx <= clen,
            after == window_start(now, secs),
            out@ == defects_from(list@, idx as int, after as int, secs, *verify),
        decreases clen - idx,
    {
        let (count, sv, si) = channel_totals(&list, idx, after);
        let ghost chs = channel_series(list@, idx as int, after as int);
        if count > 0 && count as u128 >= secs as u128 {
            proof {
                lemma_sums_bounded(chs);
                lemma_mean_bound(sv as int, count as int);
                lemma_mean_bound(si as int, count as int);
            }
            let v = (sv / count as u128) as u32;
            let c = (si / count as u128) as u32;
            let mut ch = VoltageChannel { index: idx, voltage: v, current: c, state: VoltageState::NoConnected };
            ch.set_state(verify);
            proof {
                assert(ch == window_channel(chs, idx as int, *verify));
            }
            if ch.state != VoltageState::Qualified {
                out.push(ch);
            }
        }
        idx = idx + 1;
    }
    out
}

// ---------------------------------------------------------------------------
// Minute buckets

/// The start of the minute that holds `t`.
pub open spec fn minute_of(t: u64) -> int {
    t - t % 60
}

/// A bucket: its minute key, how many samples joined it, and their sums.
pub struct BucketModel {
    pub key: u64,
    pub count: nat,
    pub sum_voltage: int,
    pub sum_current: int,
}

/// A bucket opened at `key` takes a sample of `minute` when it started less
/// than `n` minutes before.
pub open spec fn joins(key: u64, minute: int, n: u64) -> bool {
    key + n * 60 > minute
}

/// The most recent bucket that takes a sample of `minute`, or -1.
pub open spec fn find_bucket(bs: Seq<BucketModel>, minute: int, n: u64) -> int
    decreases bs.len(),
{
    if bs.len() == 0 {
        -1
    } else if joins(bs.last().key, minute, n) {
        bs.len() - 1
    } else {
        find_bucket(bs.drop_last(), minute, n)
    }
}

/// The buckets of a series: each sample joins the most recent bucket that
/// takes it, or opens a new one keyed by its own minute.
pub open spec fn buckets(items: Seq<VoltageChannelItem>, n: u64) -> Seq<BucketModel>
    decreases items.len(),
{
    if items.len() == 0 {
        seq![]
    } else {
        let bs = buckets(items.drop_last(), n);
        let it = items.last();
        let m = minute_of(it.time);
        let j = find_bucket(bs, m, n);
        if j < 0 {
            bs.push(
                BucketModel {
                    key: m as u64,
                    count: 1,
                    sum_voltage: it.ch.voltage as int,
                    sum_current: it.ch.current as int,
                },
            )
        } else {
            bs.update(
                j,
                BucketModel {
                    key: bs[j].key,
                    count: bs[j].count + 1,
                    sum_voltage: bs[j].sum_voltage + it.ch.voltage,
                    sum_current: bs[j].sum_current + it.ch.current,
                },
            )
        }
    }
}

/// The averaged item of a bucket of channel `idx`, timed at the bucket's key.
pub open spec fn bucket_item(b: BucketModel, idx: int) -> VoltageChannelItem {
    VoltageChannelItem {
        index: 0,
        time: b.key,
        ch: VoltageChannel {
            index: idx as usize,
            voltage: (b.sum_voltage / b.count as int) as u32,
            current: (b.sum_current / b.count as int) as u32,
            state: VoltageState::NoConnected,
        },
    }
}

/// The averaged items of channel `idx`.
pub open spec fn channel_averages(
    items: Seq<VoltageChannelItem>,
    idx: int,
    n: u64,
) -> Seq<VoltageChannelItem> {
    let bs = buckets(channel_series(items, idx, 0), n);
    Seq::new(bs.len(), |j: int| bucket_item(bs[j], idx))
}

/// The averaged items of channels `0..k`, one channel after another.
pub open spec fn averaged_channels(
    items: Seq<VoltageChannelItem>,
    k: int,
    n: u64,
) -> Seq<VoltageChannelItem>
    decreases k,
{
    if k <= 0 {
        seq![]
    } else {
        averaged_channels(items, k - 1, n) + channel_averages(items, k - 1, n)
    }
}

/// The same items, each indexed by its position.
pub open spec fn renumber(s: Seq<VoltageChannelItem>) -> Seq<VoltageChannelItem> {
    Seq::new(s.len(), |k: int| VoltageChannelItem { index: k as usize, ..s[k] })
}

/// What `voltage_average_every_n_minutes` returns.
pub open spec fn average_spec(groups: Seq<VoltageDataGroup>, n: u64) -> Seq<VoltageChannelItem> {
    if n == 0 {
        all_series(flat_items(groups), series_count(groups))
    } else {
        renumber(averaged_channels(flat_items(groups), series_count(groups), n))
    }
}

struct Bucket {
    key: u64,
    count: usize,
    sum_voltage: u128,
    sum_current: u128,
}

impl View for Bucket {
    type V = BucketModel;

    closed spec fn view(&self) -> BucketModel {
        BucketModel {
            key: self.key,
            count: self.count as nat,
            sum_voltage: self.sum_voltage as int,
            sum_current: self.sum_current as int,
        }
    }
}

proof fn lemma_find_bucket_range(bs: Seq<BucketModel>, minute: int, n: u64)
    ensures
        -1 <= find_bucket(bs, minute, n) < bs.len(),
    decreases bs.len(),
{
    if bs.len() > 0 {
        lemma_find_bucket_range(bs.drop_last(), minute, n);
    }
}

/// The position of the most recent bucket that takes a sample of `minute`.
fn find_open_bucket(bs: &Vec<Bucket>, minute: u64, n: u64, model: Ghost<Seq<BucketModel>>) -> (r:
    Option<usize>)
    requires
        bs@.len() == model@.len(),
        forall|j: int| 0 <= j < bs@.len() ==> bs@[j]@ == model@[j],
    ensures
        match r {
            None => find_bucket(model@, minute as int, n) == -1,
            Some(j) => find_bucket(model@, minute as int, n) == j as int,
        },
{
    let mut j: usize = bs.len();
    proof {
        assert(model@.take(j as int) =~= model@);
    }
    while j > 0 && !((bs[j - 1].key as u128) + (n as u128) * 60 > minute as u128)
        invariant
            j <= bs@.len(),
            bs@.len() == model@.len(),
            forall|k: int| 0 <= k < bs@.len() ==> bs@[k]@ == model@[k],
            find_bucket(model@, minute as int, n) == find_bucket(
                model@.take(j as int),
                minute as int,
                n,
            ),
        decreases j,
    {
        proof {
            let t = model@.take(j as int);
            assert(t.drop_last() =~= model@.take(j as int - 1));
            assert(t.last() == bs@[j as int - 1]@);
        }
        j = j - 1;
    }
    if j == 0 {
        None
    } else {
        proof {
            let t = model@.take(j as int);
            assert(t.last() == bs@[j as int - 1]@);
        }
        Some(j - 1)
    }
}

/// The buckets of a series, with the bounds that keep the sums in range.
fn bucket_series(chs: &Vec<VoltageChannelItem>, n: u64) -> (r: Vec<Bucket>)
    ensures
        r@.len() == buckets(chs@, n).len(),
        forall|j: int| 0 <= j < r@.len() ==> r@[j]@ == buckets(chs@, n)[j],
        forall|j: int|
            0 <= j < r@.len() ==> {
                &&& r@[j].count > 0
                &&& r@[j].sum_voltage <= r@[j].count * CHANNEL_VALUE_MAX
                &&& r@[j].sum_current <= r@[j].count * CHANNEL_VALUE_MAX
            },
{
    let mut bs: Vec<Bucket> = Vec::new();
    let mut i: usize = 0;
    while i < chs.len()
        invariant
            i <= chs@.len(),
            bs@.len() == buckets(chs@.take(i as int), n).len(),
            forall|j: int| 0 <= j < bs@.len() ==> bs@[j]@ == buckets(chs@.take(i as int), n)[j],
            forall|j: int|
                0 <= j < bs@.len() ==> {
                    &&& 0 < bs@[j].count <= i
                    &&& bs@[j].sum_voltage <= bs@[j].count * CHANNEL_VALUE_MAX
                    &&& bs@[j].sum_current <= bs@[j].count * CHANNEL_VALUE_MAX
                },
        decreases chs@.len() - i,
    {
        let it = chs[i];
        let m = it.time - it.time % 60;
        let ghost model = buckets(chs@.take(i as int), n);
        proof {
            let t = chs@.take(i as int + 1);
            assert(t.drop_last() =~= chs@.take(i as int));
            assert(t.last() == it);
            lemma_find_bucket_range(model, m as int, n);
        }
        match find_open_bucket(&bs, m, n, Ghost(model)) {
            None => {
                bs.push(
                    Bucket {
                        key: m,
                        count: 1,
                        sum_voltage: it.ch.voltage as u128,
                        sum_current: it.ch.current as u128,
                    },
                );
                proof {
                    assert(buckets(chs@.take(i as int + 1), n) == model.push(bs@.last()@));
                }
            },
            Some(j) => {
                let b = &bs[j];
                let nb = Bucket {
                    key: b.key,
                    count: b.count + 1,
                    sum_voltage: b.sum_voltage + it.ch.voltage as u128,
                    sum_current: b.sum_current + it.ch.current as u128,
                };
                bs.set(j, nb);
                proof {
                    assert(buckets(chs@.take(i as int + 1), n) == model.update(j as int, nb@));
                }
            },
        }
        i = i + 1;
    }
    proof {
        assert(chs@.take(chs@.len() as int) =~= chs@);
    }
    bs
}

/// Averages of each channel by minute buckets, each item numbered by its
/// position. With `minutes == 0` the series of every channel are returned
/// one after another, unchanged.
pub fn voltage_average_every_n_minutes(groups: Vec<VoltageDataGroup>, minutes: u64) -> (r: Vec<
    VoltageChannelItem,
>)
    requires
        indices_fit(groups@),
    ensures
        r@ == average_spec(groups@, minutes),
{
    let (list, widest) = flatten_groups(&groups);
    let clen = series_total(&list, widest);
    let mut out: Vec<VoltageChannelItem> = Vec::new();
    let mut idx: usize = 0;
    if minutes == 0 {
        while idx < clen
            invariant
                idx <= clen,
                out@ == all_series(list@, idx as int),
            decreases clen - idx,
        {
            let mut chs = series_of(&list, idx, 0);
            out.append(&mut chs);
            idx = idx + 1;
        }
        return out;
    }
    while idx < clen
        invariant
            idx <= clen,
            out@ == renumber(averaged_channels(list@, idx as int, minutes)),
        decreases clen - idx,
    {
        let chs = series_of(&list, idx, 0);
        let bs = bucket_series(&chs, minutes);
        let ghost done = averaged_channels(list@, idx as int, minutes);
        let ghost avg = channel_averages(list@, idx as int, minutes);
        let mut j: usize = 0;
        while j < bs.len()
            invariant
                j <= bs@.len(),
                bs@.len() == avg.len(),
                forall|k: int| 0 <= k < bs@.len() ==> bucket_item(bs@[k]@, idx as int) == avg[k],
                forall|k: int|
                    0 <= k < bs@.len() ==> {
                        &&& bs@[k].count > 0
                        &&& bs@[k].sum_voltage <= bs@[k].count * CHANNEL_VALUE_MAX
                        &&& bs@[k].sum_current <= bs@[k].count * CHANNEL_VALUE_MAX
                    },
                out@ == renumber(done + avg.take(j as int)),
            decreases bs@.len() - j,
        {
            let b = &bs[j];
            proof {
                lemma_mean_bound(b.sum_voltage as int, b.count as int);
                lemma_mean_bound(b.sum_current as int, b.count as int);
            }
            let item = VoltageChannelItem {
                index: out.len(),
                time: b.key,
                ch: VoltageChannel {
                    index: idx,
                    voltage: (b.sum_voltage / b.count as u128) as u32,
                    current: (b.sum_current / b.count as u128) as u32,
                    state: VoltageState::NoConnected,
                },
            };
            proof {
                assert(avg[j as int] == bucket_item(bs@[j as int]@, idx as int));
                assert(renumber(done + avg.take(j as int + 1)) =~= renumber(
                    done + avg.take(j as int),
                ).push(item));
            }
            out.push(item);
            j = j + 1;
        }
        proof {
            assert(avg.take(avg.len() as int) =~= avg);
        }
        idx = idx + 1;
    }
    out
}

/// Whether the flattened channel indices of `groups` fit in a `usize`, as
/// the aggregation functions require.
pub fn check_indices(groups: &Vec<VoltageDataGroup>) -> (r: bool)
    ensures
        r == indices_fit(groups@),
{
    let mut g: usize = 0;
    while g < groups.len()
        invariant
            g <= groups@.len(),
            forall|g2: int, s2: int|
                0 <= g2 < g && 0 <= s2 < groups@[g2].data@.len() ==> slave_fits(groups@, g2, s2),
        decreases groups@.len() - g,
    {
        let group = &groups[g];
        let group_len = group.data.len();
        let mut s: usize = 0;
        while s < group_len
            invariant
                g < groups@.len(),
                *group == groups@[g as int],
                group_len == group.data@.len(),
                s <= group_len,
                forall|g2: int, s2: int|
                    0 <= g2 < g && 0 <= s2 < groups@[g2].data@.len() ==> slave_fits(
                        groups@,
                        g2,
                        s2,
                    ),
                forall|s2: int| 0 <= s2 < s ==> slave_fits(groups@, g as int, s2),
            decreases group_len - s,
        {
            let slave = &group.data[s];
            let n_ch = slave.data.len();
            proof {
                assert(groups@[g as int].data@[s as int] == *slave);
            }
            let width = match n_ch.checked_mul(group_len) {
                Some(x) => x,
                None => {
                    proof {
                        assert(!slave_fits(groups@, g as int, s as int));
                    }
                    return false;
                },
            };
            let mut c: usize = 0;
            while c < n_ch
                invariant
                    g < groups@.len(),
                    s < group_len,
                    *group == groups@[g as int],
                    group_len == group.data@.len(),
                    *slave == group.data@[s as int],
                    n_ch == slave.data@.len(),
                    width == span(*group, s as int),
                    c <= n_ch,
                    forall|c2: int|
                        0 <= c2 < c ==> g * width + slave.data@[c2].index <= usize::MAX
                            && slave.data@[c2].index < usize::MAX,
                decreases n_ch - c,
            {
                let index = slave.data[c].index;
                if index == usize::MAX {
                    proof {
                        assert(!slave_fits(groups@, g as int, s as int));
                    }
                    return false;
                }
                let fits = match g.checked_mul(width) {
                    Some(gs) => gs.checked_add(index).is_some(),
                    None => false,
                };
                if !fits {
                    proof {
                        assert(g * width + slave.data@[c as int].index > usize::MAX) by (
                        nonlinear_arith)
                            requires
                                g * width > usize::MAX || g * width + index > usize::MAX,
                                index == slave.data@[c as int].index,
                                index >= 0,
                        ;
                        assert(!slave_fits(groups@, g as int, s as int));
                    }
                    return false;
                }
                c = c + 1;
            }
            s = s + 1;
        }
        g = g + 1;
    }
    true
}

// ---------------------------------------------------------------------------
// Laws

proof fn lemma_series_counts(items: Seq<VoltageChannelItem>, idx: int, x: VoltageChannelItem)
    ensures
        channel_series(items, idx, 0).to_multiset().count(x) == (if x.ch.index == idx {
            items.to_multiset().count(x)
        } else {
            0
        }),
    decreases items.len(),
{
    broadcast use vstd::seq_lib::group_to_multiset_ensures;

    if items.len() > 0 {
        lemma_series_counts(items.drop_last(), idx, x);
        assert(items.drop_last().push(items.last()) =~= items);
    }
}

proof fn lemma_all_series_counts(items: Seq<VoltageChannelItem>, k: int, x: VoltageChannelItem)
    ensures
        all_series(items, k).to_multiset().count(x) == (if x.ch.index < k {
            items.to_multiset().count(x)
        } else {
            0
        }),
    decreases k,
{
    broadcast use vstd::seq_lib::group_to_multiset_ensures;

    if k > 0 {
        lemma_all_series_counts(items, k - 1, x);
        lemma_series_counts(items, k - 1, x);
        vstd::seq_lib::lemma_multiset_commutative(
            all_series(items, k - 1),
            channel_series(items, k - 1, 0),
        );
    }
}

proof fn lemma_index_bound(items: Seq<VoltageChannelItem>)
    ensures
        index_bound(items) >= 0,
        forall|j: int| 0 <= j < items.len() ==> items[j].ch.index < index_bound(items),
        (forall|j: int| 0 <= j < items.len() ==> items[j].ch.index < usize::MAX) ==> index_bound(
            items,
        ) <= usize::MAX,
    decreases items.len(),
{
    if items.len() > 0 {
        let rest = items.drop_last();
        lemma_index_bound(rest);
        assert forall|j: int| 0 <= j < rest.len() implies rest[j] == items[j] by {}
    }
}

/// Without bucketing, every sample of every group comes back exactly once,
/// with its own time and reading.
pub proof fn lemma_unbucketed_keeps_every_sample(groups: Seq<VoltageDataGroup>)
    ensures
        average_spec(groups, 0).to_multiset() =~= flat_items(groups).to_multiset(),
        average_spec(groups, 0).len() == flat_items(groups).len(),
{
    let items = flat_items(groups);
    lemma_index_bound(items);
    assert forall|x: VoltageChannelItem|
        average_spec(groups, 0).to_multiset().count(x) == items.to_multiset().count(x) by {
        lemma_all_series_counts(items, series_count(groups), x);
        vstd::seq_lib::to_multiset_contains(items, x);
        if items.to_multiset().count(x) > 0 {
            let j = choose|j: int| 0 <= j < items.len() && items[j] == x;
            assert(items[j].ch.index < series_count(groups));
        }
    }
    assert(average_spec(groups, 0).to_multiset() =~= items.to_multiset());
    vstd::seq_lib::to_multiset_len(average_spec(groups, 0));
    vstd::seq_lib::to_multiset_len(items);
}

proof fn lemma_group_channel_len_fits(groups: Seq<VoltageDataGroup>, g: int, k: int)
    requires
        indices_fit(groups),
        0 <= g < groups.len(),
        k <= groups[g].data@.len(),
    ensures
        0 <= group_channel_len(groups[g], k) <= usize::MAX,
    decreases k,
{
    if k > 0 {
        lemma_group_channel_len_fits(groups, g, k - 1);
        assert(slave_fits(groups, g, k - 1));
    }
}

proof fn lemma_indices_fit_prefix(groups: Seq<VoltageDataGroup>)
    requires
        indices_fit(groups),
        groups.len() > 0,
    ensures
        indices_fit(groups.drop_last()),
{
    let rest = groups.drop_last();
    assert forall|g: int, s: int|
        0 <= g < rest.len() && 0 <= s < rest[g].data@.len() implies #[trigger] slave_fits(
        rest,
        g,
        s,
    ) by {
        assert(rest[g] == groups[g]);
        assert(slave_fits(groups, g, s));
    }
}

proof fn lemma_group_items_below(groups: Seq<VoltageDataGroup>, g: int, k: int)
    requires
        indices_fit(groups),
        0 <= g < groups.len(),
        k <= groups[g].data@.len(),
    ensures
        forall|j: int|
            0 <= j < group_items(g, groups[g], k).len() ==> group_items(g, groups[g], k)[j].ch.index
                < usize::MAX,
    decreases k,
{
    if k > 0 {
        lemma_group_items_below(groups, g, k - 1);
        assert(slave_fits(groups, g, k - 1));
        let a = group_items(g, groups[g], k - 1);
        let b = slave_items(g, groups[g], k - 1);
        assert forall|j: int| 0 <= j < (a + b).len() implies (a + b)[j].ch.index < usize::MAX by {
            if j >= a.len() {
                assert((a + b)[j] == b[j - a.len()]);
            }
        }
    }
}

proof fn lemma_flat_indices_below(groups: Seq<VoltageDataGroup>)
    requires
        indices_fit(groups),
    ensures
        forall|j: int|
            0 <= j < flat_items(groups).len() ==> flat_items(groups)[j].ch.index < usize::MAX,
    decreases groups.len(),
{
    if groups.len() > 0 {
        lemma_indices_fit_prefix(groups);
        lemma_flat_indices_below(groups.drop_last());
        let n = groups.len() - 1;
        lemma_group_items_below(groups, n, groups[n].data@.len() as int);
        let a = flat_items(groups.drop_last());
        let b = group_items(n, groups.last(), groups.last().data@.len() as int);
        assert forall|j: int| 0 <= j < (a + b).len() implies (a + b)[j].ch.index < usize::MAX by {
            if j >= a.len() {
                assert((a + b)[j] == b[j - a.len()]);
            }
        }
    }
}

proof fn lemma_channel_len_fits(groups: Seq<VoltageDataGroup>)
    requires
        indices_fit(groups),
    ensures
        0 <= channel_len(groups) <= usize::MAX,
    decreases groups.len(),
{
    if groups.len() > 0 {
        let rest = groups.drop_last();
        lemma_indices_fit_prefix(groups);
        lemma_channel_len_fits(rest);
        lemma_group_channel_len_fits(groups, groups.len() - 1, groups.last().data@.len() as int);
    }
}

/// Whether channel `idx` is reported: evaluated, and not `Qualified`.
pub open spec fn flagged(
    items: Seq<VoltageChannelItem>,
    idx: int,
    after: int,
    secs: u64,
    verify: Verify,
) -> bool {
    let chs = channel_series(items, idx, after);
    eligible(chs, secs) && window_channel(chs, idx, verify).state != VoltageState::Qualified
}

proof fn lemma_defects_shape(
    items: Seq<VoltageChannelItem>,
    k: int,
    after: int,
    secs: u64,
    verify: Verify,
)
    requires
        k <= usize::MAX + 1,
    ensures
        ({
            let d = defects_from(items, k, after, secs, verify);
            &&& forall|j: int| 0 <= j < d.len() ==> d[j].index < k
            &&& forall|j: int|
                0 <= j < d.len() ==> d[j] == window_channel(
                    channel_series(items, d[j].index as int, after),
                    d[j].index as int,
                    verify,
                ) && flagged(items, d[j].index as int, after, secs, verify)
            &&& forall|j1: int, j2: int|
                0 <= j1 < j2 < d.len() ==> d[j1].index < d[j2].index
            &&& forall|idx: int|
                0 <= idx < k && flagged(items, idx, after, secs, verify) ==> exists|j: int|
                    0 <= j < d.len() && d[j].index == idx
        }),
    decreases k,
{
    if k > 0 {
        lemma_defects_shape(items, k - 1, after, secs, verify);
        let rest = defects_from(items, k - 1, after, secs, verify);
        let d = defects_from(items, k, after, secs, verify);
        if flagged(items, k - 1, after, secs, verify) {
            let w = window_channel(channel_series(items, k - 1, after), k - 1, verify);
            assert(d == rest.push(w));
            assert(w.index == k - 1);
            assert forall|idx: int|
                0 <= idx < k && flagged(items, idx, after, secs, verify) implies exists|j: int|
                0 <= j < d.len() && d[j].index == idx by {
                if idx == k - 1 {
                    assert(d[d.len() - 1].index == idx);
                } else {
                    let j = choose|j: int| 0 <= j < rest.len() && rest[j].index == idx;
                    assert(d[j].index == idx);
                }
            }
        } else {
            assert(d == rest);
        }
    }
}

/// A channel with fewer samples in the window than the window has seconds
/// is never reported; a channel that has enough and whose window average is
/// out of tolerance is reported exactly once, with that average.
pub proof fn lemma_density_floor(
    groups: Seq<VoltageDataGroup>,
    now: u64,
    secs: u64,
    verify: Verify,
    idx: usize,
)
    requires
        indices_fit(groups),
    ensures
        ({
            let d = defects_spec(groups, now, secs, verify);
            let chs = channel_series(flat_items(groups), idx as int, window_start(now, secs));
            &&& chs.len() < secs ==> forall|j: int| 0 <= j < d.len() ==> d[j].index != idx
            &&& (idx < series_count(groups) && eligible(chs, secs) && window_channel(
                chs,
                idx as int,
                verify,
            ).state != VoltageState::Qualified) ==> {
                &&& exists|j: int| 0 <= j < d.len() && d[j] == window_channel(chs, idx as int, verify)
                &&& forall|j1: int, j2: int|
                    0 <= j1 < d.len() && 0 <= j2 < d.len() && d[j1].index == idx && d[j2].index
                        == idx ==> j1 == j2
            }
        }),
{
    let items = flat_items(groups);
    let after = window_start(now, secs);
    lemma_channel_len_fits(groups);
    lemma_flat_indices_below(groups);
    lemma_index_bound(items);
    lemma_defects_shape(items, series_count(groups), after, secs, verify);
    let d = defects_spec(groups, now, secs, verify);
    let chs = channel_series(items, idx as int, after);
    if idx < series_count(groups) && flagged(items, idx as int, after, secs, verify) {
        let j = choose|j: int| 0 <= j < d.len() && d[j].index == idx;
        assert(d[j] == window_channel(chs, idx as int, verify));
        assert forall|j1: int, j2: int|
            0 <= j1 < d.len() && 0 <= j2 < d.len() && d[j1].index == idx && d[j2].index
                == idx implies j1 == j2 by {
            if j1 < j2 {
                assert(d[j1].index < d[j2].index);
            } else if j2 < j1 {
                assert(d[j2].index < d[j1].index);
            }
        }
    }
}

} // verus!
