use mb::aggregate::{
    check_defective_in_secs, voltage_average_every_n_minutes, VoltageChannelItem, VoltageDataGroup, AB,
};
use mb::voltage::{Verify, VoltageChannel, VoltageData, VoltageState};

fn meter(time: u64, slave: u8, position: usize, voltage: u32, current: u32) -> VoltageData {
    let data = (0..15)
        .map(|i| VoltageChannel {
            index: i + position * 15,
            voltage,
            current,
            state: VoltageState::Qualified,
        })
        .collect();
    VoltageData::new(time, slave, data)
}

fn group(time: u64, meters: Vec<VoltageData>) -> VoltageDataGroup {
    VoltageDataGroup {
        time,
        ab: AB::A,
        good_name: "test".to_string(),
        task_name: "test".to_string(),
        start_at: time,
        task_age_time: 0,
        temperature: 300,
        data: meters,
    }
}

#[test]
fn unbucketed_returns_every_sample_once() {
    let groups = vec![
        group(100, vec![meter(100, 1, 0, 5_000_000, 2_000_000), meter(100, 2, 1, 6_000_000, 2_000_000)]),
        group(101, vec![meter(101, 1, 0, 7_000_000, 2_000_000), meter(101, 2, 1, 8_000_000, 2_000_000)]),
    ];
    let out = voltage_average_every_n_minutes(groups, 0);
    assert_eq!(out.len(), 60);
    // grouped by channel, each channel in time order
    assert_eq!(out[0].ch.index, 0);
    assert_eq!(out[0].time, 100);
    assert_eq!(out[1].ch.index, 0);
    assert_eq!(out[1].time, 101);
    assert_eq!(out[0].ch.voltage, 5_000_000);
    assert_eq!(out[1].ch.voltage, 7_000_000);
    assert_eq!(out[30].ch.index, 15);
    assert_eq!(out[30].ch.voltage, 6_000_000);
    for ch in 0..30usize {
        assert_eq!(out.iter().filter(|it| it.ch.index == ch).count(), 2);
    }
}

fn single_channel_groups(samples: &[(u64, u32)]) -> Vec<VoltageDataGroup> {
    samples
        .iter()
        .map(|&(t, v)| {
            let ch = VoltageChannel { index: 0, voltage: v, current: 1_000_000, state: VoltageState::Qualified };
            group(t, vec![VoltageData::new(t, 1, vec![ch])])
        })
        .collect()
}

#[test]
fn minute_buckets_one_minute() {
    let groups = single_channel_groups(&[(0, 10), (30, 20), (60, 40), (130, 50), (179, 70)]);
    let out = voltage_average_every_n_minutes(groups, 1);
    let times: Vec<u64> = out.iter().map(|it| it.time).collect();
    assert_eq!(times, vec![0, 60, 120]);
    let volts: Vec<u32> = out.iter().map(|it| it.ch.voltage).collect();
    assert_eq!(volts, vec![15, 40, 60]);
    let idx: Vec<usize> = out.iter().map(|it| it.index).collect();
    assert_eq!(idx, vec![0, 1, 2]);
    assert!(out.iter().all(|it| it.ch.state == VoltageState::NoConnected));
}

#[test]
fn minute_buckets_two_minutes() {
    let groups = single_channel_groups(&[(5, 10), (65, 21), (125, 40), (250, 3)]);
    let out = voltage_average_every_n_minutes(groups, 2);
    let summary: Vec<(u64, u32)> = out.iter().map(|it| (it.time, it.ch.voltage)).collect();
    assert_eq!(summary, vec![(0, 15), (120, 40), (240, 3)]);
}

#[test]
fn buckets_renumber_across_channels() {
    let mk = |t: u64| {
        let chs = vec![
            VoltageChannel { index: 0, voltage: 1, current: 1, state: VoltageState::Qualified },
            VoltageChannel { index: 1, voltage: 3, current: 3, state: VoltageState::Qualified },
        ];
        group(t, vec![VoltageData::new(t, 1, chs)])
    };
    let out = voltage_average_every_n_minutes(vec![mk(0), mk(70)], 1);
    let got: Vec<(usize, usize, u64)> = out.iter().map(|it| (it.index, it.ch.index, it.time)).collect();
    assert_eq!(got, vec![(0, 0, 0), (1, 0, 60), (2, 1, 0), (3, 1, 60)]);
}

fn window_groups(now: u64, count: u64, voltage: u32) -> Vec<VoltageDataGroup> {
    (0..count)
        .map(|k| {
            let t = now - k;
            let ch = VoltageChannel { index: 0, voltage, current: 2_000_000, state: VoltageState::Qualified };
            group(t, vec![VoltageData::new(t, 1, vec![ch])])
        })
        .collect()
}

#[test]
fn defect_density_floor() {
    let verify = Verify::default();
    let now = 10_000;
    let few = window_groups(now, 59, 40_000_000);
    assert!(check_defective_in_secs(few, 60, &verify, now).is_empty());
    let enough = window_groups(now, 60, 40_000_000);
    let out = check_defective_in_secs(enough, 60, &verify, now);
    assert_eq!(out.len(), 1);
    assert_eq!(out[0].index, 0);
    assert_eq!(out[0].voltage, 40_000_000);
    assert_eq!(out[0].state, VoltageState::OverVoltage);
}

#[test]
fn defect_window_excludes_old_samples_and_qualified() {
    let verify = Verify::default();
    let now = 10_000;
    let mut groups = window_groups(now, 3, 500_000);
    // an old sample that would otherwise pull the average up
    groups.push(window_groups(now - 100, 1, 30_000_000).remove(0));
    let out = check_defective_in_secs(groups, 3, &verify, now);
    assert_eq!(out.len(), 1);
    assert_eq!(out[0].voltage, 500_000);
    assert_eq!(out[0].state, VoltageState::UnderVoltage);
    let good = window_groups(now, 5, 12_000_000);
    assert!(check_defective_in_secs(good, 5, &verify, now).is_empty());
}

#[test]
fn defect_average_rounds_down() {
    let verify = Verify { voltage_top: 10, voltage_down: 1, current_top: 10_000_000, current_down: 1 };
    let now = 50;
    let mut groups = window_groups(now, 1, 11);
    groups.extend(window_groups(now - 1, 1, 12));
    let out = check_defective_in_secs(groups, 2, &verify, now);
    assert_eq!(out.len(), 1);
    assert_eq!(out[0].voltage, 11);
    assert_eq!(out[0].state, VoltageState::OverVoltage);
    let item = VoltageChannelItem { index: 0, time: 0, ch: out[0] };
    assert_eq!(item.ch.index, 0);
}

#[test]
fn unbucketed_keeps_channels_beyond_the_widest_meter() {
    // one meter of one channel whose index lies past the meter's own width
    let ch = VoltageChannel { index: 15, voltage: 3, current: 4, state: VoltageState::Qualified };
    let groups = vec![group(7, vec![VoltageData::new(7, 1, vec![ch])])];
    let out = voltage_average_every_n_minutes(groups.clone(), 0);
    assert_eq!(out.len(), 1);
    assert_eq!(out[0].time, 7);
    assert_eq!(out[0].ch, ch);
    let averaged = voltage_average_every_n_minutes(groups.clone(), 1);
    assert_eq!(averaged.len(), 1);
    assert_eq!(averaged[0].ch.index, 15);
    let defects = check_defective_in_secs(groups, 1, &Verify::default(), 7);
    assert_eq!(defects.len(), 1);
    assert_eq!(defects[0].index, 15);
    assert_eq!(defects[0].state, VoltageState::UnderVoltage);
}
