use mb::aggregate::{check_indices, VoltageDataGroup, AB};
use mb::colors::ColorPlate;
use mb::mock::Slave;
use mb::task::{PowerConfig, PowerMode, Product, Task, TaskItem};
use mb::voltage::{Verify, VoltageChannel, VoltageData, VoltageState};

fn item(index: usize, dur: u64) -> TaskItem {
    TaskItem { index, power_on: true, voltage: 220, dur }
}

#[test]
fn task_total_time() {
    let task = Task {
        title: "t".to_string(),
        ab: AB::B,
        temperature: 450,
        voltage_verify: Verify::default(),
        power: PowerConfig { mode: PowerMode::Dc, voltage: 12, current: 2 },
        count_time: 0,
        task_loop: 3,
        items: vec![item(0, 3600), item(1, 90), item(2, 10)],
        product: Product { title: "p".to_string(), index: "1".to_string() },
    };
    assert_eq!(task.total_time(), 3 * 3700);
    let once = Task { task_loop: 0, ..task };
    assert_eq!(once.total_time(), 0);
}

#[test]
fn state_colors() {
    assert_eq!(ColorPlate::from_state(VoltageState::Qualified), ColorPlate::Green);
    assert_eq!(ColorPlate::from_state(VoltageState::OverCurrent), ColorPlate::Puple);
    assert_eq!(ColorPlate::Green.rgba(), (76, 175, 80, 255));
    assert_eq!(ColorPlate::default(), ColorPlate::White);
}

#[test]
fn slave_addresses() {
    assert_eq!(Slave::of_address(1), Slave::Temp);
    assert_eq!(Slave::of_address(2), Slave::Relay);
    assert_eq!(Slave::of_address(3), Slave::PowerA);
    assert_eq!(Slave::of_address(4), Slave::PowerB);
    assert_eq!(Slave::of_address(5), Slave::Voltage);
    assert_eq!(Slave::of_address(0), Slave::Voltage);
}

fn one_group(index: usize) -> VoltageDataGroup {
    let ch = VoltageChannel { index, voltage: 1, current: 1, state: VoltageState::Qualified };
    VoltageDataGroup {
        time: 0,
        ab: AB::A,
        good_name: String::new(),
        task_name: String::new(),
        start_at: 0,
        task_age_time: 0,
        temperature: 0,
        data: vec![VoltageData::new(0, 1, vec![ch])],
    }
}

#[test]
fn index_overflow_is_detected() {
    assert!(check_indices(&vec![one_group(3), one_group(4)]));
    assert!(check_indices(&vec![]));
    assert!(check_indices(&vec![one_group(usize::MAX - 1)]));
    assert!(!check_indices(&vec![one_group(usize::MAX)]));
    assert!(!check_indices(&vec![one_group(0), one_group(usize::MAX)]));
}
