use raidz::ConfigError;
use raidz::Disk;
use raidz::Vdev;
use raidz::VdevType;
use raidz::find_configurations;
use raidz::sort_by_total_cost;

fn mk_disk(size: u64, cost: u64) -> Disk {
    Disk { size, cost, name: String::from("disk"), link: String::from("https://example.invalid") }
}

#[test]
fn min_disks_table() {
    assert_eq!(VdevType::Raidz1.min_disks(), 3);
    assert_eq!(VdevType::Raidz2.min_disks(), 4);
    assert_eq!(VdevType::Raidz3.min_disks(), 5);
}

#[test]
fn scheme_names() {
    assert_eq!(VdevType::Raidz1.name(), "RAID-Z1");
    assert_eq!(VdevType::Raidz2.name(), "RAID-Z2");
    assert_eq!(VdevType::Raidz3.name(), "RAID-Z3");
}

#[test]
fn try_new_rejects_below_minimum() {
    let r = Vdev::try_new(VdevType::Raidz1, mk_disk(200, 112800), 2);
    assert_eq!(r, Err(ConfigError::InvalidMemberCount));
    let r = Vdev::try_new(VdevType::Raidz2, mk_disk(200, 112800), 3);
    assert_eq!(r, Err(ConfigError::InvalidMemberCount));
    let r = Vdev::try_new(VdevType::Raidz3, mk_disk(200, 112800), 4);
    assert_eq!(r, Err(ConfigError::InvalidMemberCount));
}

#[test]
fn try_new_accepts_minimum() {
    let v = Vdev::try_new(VdevType::Raidz1, mk_disk(200, 112800), 3).unwrap();
    assert_eq!(v.num_disks, 3);
    assert_eq!(v.disk_type.size, 200);
}

// Scenario: a 4.0 TB disk at 1318 per unit, five members under double parity.
#[test]
fn metrics_formulas() {
    let v = Vdev::new(VdevType::Raidz2, mk_disk(400, 131800), 5);
    // usable = 4.0 * (5 - 2) = 12.0 TB, raw = 20.0 TB, cost = 6590.00
    assert_eq!(v.usable_storage(), 1200);
    assert_eq!(v.raw_storage(), 2000);
    assert_eq!(v.total_cost(), 659000);
    assert!(v.usable_storage() < v.raw_storage());
    let cost = v.total_cost() as f64 / 100.0;
    let usable_tb = v.usable_storage() as f64 / 100.0;
    let raw_tb = v.raw_storage() as f64 / 100.0;
    assert!((cost / usable_tb - 549.17).abs() < 0.005);
    assert!((cost / raw_tb - 329.5).abs() < 1e-9);
}

#[test]
fn usable_storage_strictly_increases_with_member_count() {
    let disk = mk_disk(400, 131800);
    let mut last = Vdev::new(VdevType::Raidz2, disk.clone(), 4).usable_storage();
    for n in 5..10u32 {
        let cur = Vdev::new(VdevType::Raidz2, disk.clone(), n).usable_storage();
        assert!(cur > last);
        last = cur;
    }
}

// Scenario: 2.0 TB disks, target 10 TB, plus or minus 30 percent, up to 24
// disks, single parity: member counts 5, 6, 7 qualify (usable 8, 10, 12 TB);
// 4 members (6 TB usable) falls below the 7 TB lower edge.
#[test]
fn band_scenario_single_parity() {
    let disks = vec![mk_disk(200, 112800)];
    let found = find_configurations(1000, &disks, 24, 30, &VdevType::Raidz1);
    let counts: Vec<u32> = found.iter().map(|v| v.num_disks).collect();
    assert_eq!(counts, vec![5, 6, 7]);
    for v in &found {
        assert_eq!(v.vdev_type, VdevType::Raidz1);
        assert_eq!(v.disk_type.size, 200);
    }
}

#[test]
fn band_edges_are_inclusive() {
    // target 10 TB, ratio 30%: band is [7.0, 13.0] TB inclusive.
    let low_edge = vec![mk_disk(350, 1)];
    let found = find_configurations(1000, &low_edge, 3, 30, &VdevType::Raidz1);
    assert_eq!(found.len(), 1); // 3.5 * 2 = 7.0 TB, exactly the lower edge
    let high_edge = vec![mk_disk(650, 1)];
    let found = find_configurations(1000, &high_edge, 3, 30, &VdevType::Raidz1);
    assert_eq!(found.len(), 1); // 6.5 * 2 = 13.0 TB, exactly the upper edge
    let above = vec![mk_disk(651, 1)];
    let found = find_configurations(1000, &above, 3, 30, &VdevType::Raidz1);
    assert_eq!(found.len(), 0); // 13.02 TB, just past the upper edge
}

// Scenario: target 100 TB with zero tolerance: only exact matches qualify.
#[test]
fn zero_ratio_keeps_exact_matches_only() {
    let disks = vec![mk_disk(200, 112800), mk_disk(2500, 900000)];
    let found = find_configurations(10000, &disks, 24, 0, &VdevType::Raidz1);
    // 2.0 TB disks would need 51 members; 25.0 TB disks hit it at 5 members.
    assert_eq!(found.len(), 1);
    assert_eq!(found[0].disk_type.size, 2500);
    assert_eq!(found[0].num_disks, 5);
    assert_eq!(found[0].usable_storage(), 10000);
}

// Scenario: an empty disk catalog yields an empty result for every scheme.
#[test]
fn empty_catalog_yields_empty_result() {
    let disks: Vec<Disk> = Vec::new();
    for scheme in [VdevType::Raidz1, VdevType::Raidz2, VdevType::Raidz3] {
        let found = find_configurations(1000, &disks, 24, 30, &scheme);
        assert!(found.is_empty());
    }
}

// Scenario: a disk bound below the scheme's minimum sweeps nothing.
#[test]
fn max_disks_below_minimum_yields_empty_result() {
    let disks = vec![mk_disk(200, 112800)];
    let found = find_configurations(1000, &disks, 2, 30, &VdevType::Raidz1);
    assert!(found.is_empty());
}

#[test]
fn search_is_idempotent() {
    let disks = vec![mk_disk(200, 112800), mk_disk(400, 131800)];
    let first = find_configurations(1000, &disks, 24, 30, &VdevType::Raidz1);
    let second = find_configurations(1000, &disks, 24, 30, &VdevType::Raidz1);
    assert_eq!(first, second);
}

#[test]
fn search_keeps_enumeration_order() {
    // Disk-major, then ascending member count.
    let disks = vec![mk_disk(400, 131800), mk_disk(200, 112800)];
    let found = find_configurations(1000, &disks, 24, 30, &VdevType::Raidz1);
    let picks: Vec<(u64, u32)> = found.iter().map(|v| (v.disk_type.size, v.num_disks)).collect();
    // 4.0 TB: usable 8.0 at 3, 12.0 at 4; 2.0 TB: usable 8.0 at 5 .. 12.0 at 7.
    assert_eq!(picks, vec![(400, 3), (400, 4), (200, 5), (200, 6), (200, 7)]);
}

#[test]
fn sort_orders_by_total_cost() {
    let cheap = mk_disk(200, 100);
    let dear = mk_disk(400, 1000);
    let mut configs = vec![
        Vdev::new(VdevType::Raidz1, dear.clone(), 6),
        Vdev::new(VdevType::Raidz1, cheap.clone(), 4),
        Vdev::new(VdevType::Raidz1, dear.clone(), 3),
        Vdev::new(VdevType::Raidz1, cheap.clone(), 3),
    ];
    sort_by_total_cost(&mut configs);
    let costs: Vec<u64> = configs.iter().map(|v| v.total_cost()).collect();
    assert_eq!(costs, vec![300, 400, 3000, 6000]);
    assert_eq!(configs.len(), 4);
}

#[test]
fn sort_of_empty_and_single_is_noop() {
    let mut configs: Vec<Vdev> = Vec::new();
    sort_by_total_cost(&mut configs);
    assert!(configs.is_empty());
    let mut one = vec![Vdev::new(VdevType::Raidz3, mk_disk(400, 131800), 5)];
    sort_by_total_cost(&mut one);
    assert_eq!(one.len(), 1);
    assert_eq!(one[0].num_disks, 5);
}
