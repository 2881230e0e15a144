use empty_status::render::pango::to_pango;
use empty_status::strutil::{decimal_string, parse_u64, str_eq, trim_str};
use empty_status::units::bat::{
    format_hhmm, parse_uevent, uevent_path, BatConfig, BatDisplayMode, BatMachine, BatStatus,
};
use empty_status::units::cpu::{pct_of, read_cpu_times, Cpu, CpuConfig, CpuMachine, CpuParseError};
use empty_status::units::disk::{parse_disk_rw, parse_sector_size, select_root};
use empty_status::units::mem::{read_markup_from_totals, Mem, MemConfig, MemDisplayMode};
use empty_status::units::net::ping_command;
use empty_status::units::time::{parse_uptime_secs, Time, TimeConfig, TimeMachine};
use empty_status::units::weather::{forecast_slot_hour, TempUnits, TimeDependent, Wmo};
use empty_status::units::wifi::{signal_percent, Wifi, WifiConfig, WifiMachine};

#[test]
fn uevent_parses_keys_and_values() {
    let text = "POWER_SUPPLY_NAME=BAT0\nPOWER_SUPPLY_STATUS=Charging\nPOWER_SUPPLY_CAPACITY=85\n";
    let u = parse_uevent(text);
    assert_eq!(u.get("name").unwrap(), "bat0");
    assert_eq!(u.get("status").unwrap(), "charging");
    assert_eq!(u.get("capacity").unwrap(), "85");
    assert!(u.get("voltage_now").is_none());
}

#[test]
fn uevent_later_duplicate_wins() {
    let u = parse_uevent("A=1\nA=2\n");
    assert_eq!(u.get("a").unwrap(), "2");
}

#[test]
fn uevent_skips_lines_without_equals() {
    let u = parse_uevent("garbage\nK=v\n\n");
    assert_eq!(u.entries.len(), 1);
    assert_eq!(u.get("k").unwrap(), "v");
}

#[test]
fn bat_status_from_uevent() {
    assert_eq!(BatStatus::from_uevent(&parse_uevent("POWER_SUPPLY_STATUS=Charging\n")), BatStatus::Charging);
    assert_eq!(BatStatus::from_uevent(&parse_uevent("POWER_SUPPLY_STATUS=Discharging\n")), BatStatus::Discharging);
    assert_eq!(BatStatus::from_uevent(&parse_uevent("POWER_SUPPLY_STATUS=Full\n")), BatStatus::Full);
    assert_eq!(BatStatus::from_uevent(&parse_uevent("POWER_SUPPLY_STATUS=Unknown\n")), BatStatus::Unknown);
    assert_eq!(BatStatus::from_uevent(&parse_uevent("POWER_SUPPLY_STATUS=odd\n")), BatStatus::Other);
    assert_eq!(BatStatus::from_uevent(&parse_uevent("")), BatStatus::Other);
}

#[test]
fn bat_state_strings_are_colored_tags() {
    assert_eq!(BatStatus::Discharging.state_string(), "<span color='#DE935F'>dis</span>");
    assert_eq!(BatStatus::Charging.state_string(), "<span color='#B5BD68'>chr</span>");
    assert_eq!(BatStatus::Full.state_string(), "<span color='#81A2BE'>ful</span>");
    assert_eq!(BatStatus::Balanced.state_string(), "<span color='#8ABEB7'>bal</span>");
    assert_eq!(BatStatus::Unknown.state_string(), "<span color='#B294BB'>unk</span>");
}

#[test]
fn bat_machine_paths_and_modes() {
    assert_eq!(uevent_path(0), "/sys/class/power_supply/BAT0/uevent");
    assert_eq!(uevent_path(12), "/sys/class/power_supply/BAT12/uevent");
    let machine = BatMachine::new(BatConfig { bat_id: 0 });
    let (mut state, render, decision) = machine.init();
    assert_eq!(decision, empty_status::machine::types::UnitDecision::PollNow);
    assert_eq!(render.health, empty_status::machine::types::Health::Degraded);
    assert_eq!(state.mode, BatDisplayMode::CurCapacity);
    let _ = machine.on_click(&mut state);
    assert_eq!(state.mode, BatDisplayMode::DesignCapacity);
    let _ = machine.on_click(&mut state);
    assert_eq!(state.mode, BatDisplayMode::VoltageCurrent);
    let _ = machine.on_click(&mut state);
    assert_eq!(state.mode, BatDisplayMode::CurCapacity);
}

#[test]
fn bat_capacity_markup_is_exact() {
    let m = empty_status::units::bat::read_markup(
        BatDisplayMode::CurCapacity,
        85,
        Some(125),
        BatStatus::Charging,
    );
    assert_eq!(
        to_pango(&m),
        "bat {<span color='#8ABEB7'>85</span>%} [02:05 rem, <span color='#B5BD68'>chr</span>]"
    );
    let d = empty_status::units::bat::read_markup(
        BatDisplayMode::DesignCapacity,
        15,
        None,
        BatStatus::Discharging,
    );
    // The design-capacity angle brackets are text, so the renderer escapes
    // them like any other markup-significant character.
    assert_eq!(
        to_pango(&d),
        "bat &lt;<span color='#CC6666'>15</span>%&gt; [--:-- rem, <span color='#DE935F'>dis</span>]"
    );
}

#[test]
fn hhmm_formats_two_digits() {
    assert_eq!(format_hhmm(0), "00:00");
    assert_eq!(format_hhmm(125), "02:05");
    assert_eq!(format_hhmm(601), "10:01");
}

#[test]
fn cpu_times_from_proc_stat() {
    let bytes = b"cpu  100 50 30 820\ncpu0 1 2 3 4\n".to_vec();
    let (total, user, kernel) = read_cpu_times(&bytes).unwrap();
    assert_eq!(total, 1000);
    assert_eq!(user, 150);
    assert_eq!(kernel, 30);
}

#[test]
fn cpu_times_rejects_short_lines() {
    assert_eq!(read_cpu_times(&b"cpu 1 2 3\n".to_vec()), Err(CpuParseError::Invalid));
    assert_eq!(read_cpu_times(&b"\n".to_vec()), Err(CpuParseError::Invalid));
}

#[test]
fn cpu_markup_shows_load_delta() {
    let machine = CpuMachine::new(CpuConfig {});
    let (mut unit, _, _) = machine.init();
    // First sample establishes the baseline.
    let _ = unit.read_markup_from_proc_stat(&b"cpu 100 0 50 850\n".to_vec());
    assert_eq!(unit.prev_total, 1000);
    // Second sample: +150 user, +30 kernel over +1000 total.
    let m = unit.read_markup_from_proc_stat(&b"cpu 250 0 80 1670\n".to_vec());
    // load = 15% + 3% = 18%, colored by the usage palette (cool).
    assert_eq!(to_pango(&m), "cpu [load <span color='#8ABEB7'> 18</span>%]");
}

#[test]
fn cpu_markup_reports_read_errors() {
    let mut unit = Cpu::from_cfg(CpuConfig {});
    let m = unit.read_markup_from_proc_stat(&b"nonsense\n".to_vec());
    assert_eq!(to_pango(&m), "cpu <span color='#A3685A'>read err</span>");
}

#[test]
fn pct_rounds_to_nearest() {
    assert_eq!(pct_of(1, 3), 33);
    assert_eq!(pct_of(2, 3), 67);
    assert_eq!(pct_of(0, 7), 0);
    assert_eq!(pct_of(7, 7), 100);
    assert_eq!(pct_of(0, 0), 0);
    assert_eq!(pct_of(1, 2), 50);
}

#[test]
fn mem_markup_exact_totals() {
    // 1 GiB used of 4 GiB: 1.0 GiB at 25%.
    let m = read_markup_from_totals(1 << 30, 4u64 << 30);
    assert_eq!(
        to_pango(&m),
        "mem [used <span color='#B5BD68'>1.0</span> GiB (<span color='#B5BD68'>25</span>%)]"
    );
    let mut unit = Mem::from_cfg(MemConfig {});
    assert_eq!(unit.mode, MemDisplayMode::Totals);
    unit.handle_click();
    assert_eq!(unit.mode, MemDisplayMode::WorstProcess);
}

#[test]
fn time_unit_toggles_uptime_view() {
    let machine = TimeMachine::new(TimeConfig { format: "%H:%M".to_owned() });
    let (mut unit, _, decision) = machine.init();
    assert_eq!(decision, empty_status::machine::types::UnitDecision::PollNow);
    assert!(!unit.doing_uptime);
    let (_, d2) = machine.on_click(&mut unit);
    assert!(unit.doing_uptime);
    assert_eq!(d2, empty_status::machine::types::UnitDecision::PollNow);
    let t = Time::from_cfg(TimeConfig { format: "%H".to_owned() });
    assert_eq!(t.format, "%H");
}

#[test]
fn uptime_seconds_from_proc_uptime() {
    assert_eq!(parse_uptime_secs(&b"12345.67 8910.11\n".to_vec()), Some(12345));
    assert_eq!(parse_uptime_secs(&b"42 1\n".to_vec()), Some(42));
    assert_eq!(parse_uptime_secs(&b"\n".to_vec()), None);
    assert_eq!(parse_uptime_secs(&b"abc\n".to_vec()), None);
}

#[test]
fn wifi_signal_scaling_clamps() {
    assert_eq!(signal_percent(-80), 0);
    assert_eq!(signal_percent(-127), 0);
    assert_eq!(signal_percent(-55), 50);
    assert_eq!(signal_percent(-30), 100);
    assert_eq!(signal_percent(-10), 100);
}

#[test]
fn wifi_markup_shows_and_hides_ssid() {
    let machine = WifiMachine::new(WifiConfig { interface: "wlan0".to_owned() });
    let (mut unit, _, _) = machine.init();
    let shown = unit.read_markup("HomeNet", -55);
    assert_eq!(
        to_pango(&shown),
        "wifi<span color='#B5BD68'> [HomeNet]</span> <span color='#F0C674'>50</span>%"
    );
    let _ = machine.on_click(&mut unit);
    let hidden = unit.read_markup("HomeNet", -55);
    assert_eq!(to_pango(&hidden), "wifi <span color='#F0C674'>50</span>%");
    let w = Wifi::from_cfg(WifiConfig { interface: "wlan0".to_owned() });
    assert_eq!(w.cfg.interface, "wlan0");
}

#[test]
fn wmo_codes_round_trip() {
    assert_eq!(Wmo::from_code(0), Some(Wmo::ClearSky));
    assert_eq!(Wmo::from_code(45), Some(Wmo::Fog));
    assert_eq!(Wmo::from_code(95), Some(Wmo::Thunderstorm));
    assert_eq!(Wmo::from_code(99), Some(Wmo::ThunderstormWithHailDup));
    assert_eq!(Wmo::from_code(4), None);
    assert_eq!(Wmo::from_code(200), None);
}

#[test]
fn wmo_emoji_follow_daylight() {
    match Wmo::ClearSky.get_emoji() {
        TimeDependent::DayNight(d, n) => {
            assert_eq!(d, "\u{2600}\u{fe0f}");
            assert_eq!(n, "\u{1f319}");
        }
        TimeDependent::Fixed(_) => panic!("a clear sky looks different at night"),
    }
    let overcast = Wmo::Overcast.get_emoji();
    assert_eq!(*overcast.get(true), *overcast.get(false));
    let clear = Wmo::ClearSky.get_emoji();
    assert_eq!(*clear.get(true), "\u{2600}\u{fe0f}");
    assert_eq!(*clear.get(false), "\u{1f319}");
}

#[test]
fn temp_units_suffixes() {
    assert_eq!(TempUnits::Celsius.suffix(), "C");
    assert_eq!(TempUnits::Fahrenheit.suffix(), "F");
}

#[test]
fn forecast_slots_are_four_hourly() {
    assert_eq!(forecast_slot_hour(10, 0), 8);
    assert_eq!(forecast_slot_hour(10, 1), 12);
    assert_eq!(forecast_slot_hour(10, 4), 0);
    assert_eq!(forecast_slot_hour(23, 1), 0);
}

#[test]
fn disk_root_is_longest_prefix() {
    let entries = vec!["sd".to_owned(), "sda".to_owned(), "sdb".to_owned(), "nvme0n1".to_owned()];
    assert_eq!(select_root(&entries, "sda12").unwrap(), "sda");
    assert_eq!(select_root(&entries, "nvme0n1p2").unwrap(), "nvme0n1");
    assert!(select_root(&entries, "vda1").is_none());
    assert!(select_root(&Vec::new(), "sda").is_none());
}

#[test]
fn disk_counters_scale_by_sector_size() {
    let stat = b" 1 2 300 4 5 6 70 8 9 10 11\n".to_vec();
    assert_eq!(parse_disk_rw(&stat, 512), Some((300 * 512, 70 * 512)));
    assert_eq!(parse_disk_rw(&b"1 2 3\n".to_vec(), 512), None);
    assert_eq!(parse_sector_size(&b" 512\n".to_vec()), Some(512));
    assert_eq!(parse_sector_size(&b"abc\n".to_vec()), None);
}

#[test]
fn ping_command_is_fixed_shape() {
    let cmd = ping_command("eth0", "8.8.8.8");
    assert_eq!(cmd, vec!["ping", "-n", "-O", "-I", "eth0", "8.8.8.8"]);
}

#[test]
fn string_helpers_behave() {
    assert_eq!(decimal_string(0), "0");
    assert_eq!(decimal_string(12345), "12345");
    assert_eq!(parse_u64("0"), Some(0));
    assert_eq!(parse_u64("18446744073709551615"), Some(u64::MAX));
    assert_eq!(parse_u64("18446744073709551616"), None);
    assert_eq!(parse_u64(""), None);
    assert_eq!(parse_u64("12a"), None);
    assert_eq!(trim_str("  a b \t\n"), "a b");
    assert!(str_eq("abc", "abc"));
    assert!(!str_eq("abc", "abd"));
    assert!(!str_eq("abc", "ab"));
}

#[test]
fn sample_config_is_valid_toml() {
    let text = empty_status::config::sample_config();
    let parsed: Result<toml::Value, _> = toml::from_str(text);
    let v = parsed.unwrap();
    assert!(v.get("min_polling_interval").is_some());
    assert_eq!(v["padding"].as_integer(), Some(1));
}
