//! Per-endpoint response shape checks: each test refreshes one family with
//! concrete values and holds the served body against the documented JSON
//! shape, both as exact text and through a JSON parser.

use sysmetrics::model::CpuEntry;
use sysmetrics::model::DiskEntry;
use sysmetrics::model::FamilyData;
use sysmetrics::model::LoadPoints;
use sysmetrics::model::MemoryCounters;
use sysmetrics::model::NetworkEntry;
use sysmetrics::model::OsReport;
use sysmetrics::model::TemperatureEntry;
use sysmetrics::model::UserEntry;
use sysmetrics::store::SnapshotStore;

fn parse(body: &str) -> serde_json::Value {
    serde_json::from_str(body).expect("Failed to parse response as JSON")
}

#[test]
fn test_boot_time_endpoint() {
    let mut store = SnapshotStore::new();
    let resp = store.refresh_and_respond(FamilyData::BootTime(1_700_000_000));
    assert_eq!(resp.status, 200);
    assert!(resp.content_type_json);
    assert_eq!(resp.body, "{\"boot_time\":1700000000}");
    let response_json = parse(&resp.body);
    assert!(response_json["boot_time"].is_number());
    let response = response_json["boot_time"].as_u64().unwrap();
    assert!(response > 0);
    assert_eq!(response, 1_700_000_000);
}

#[test]
fn test_cpus_endpoint() {
    let mut store = SnapshotStore::new();
    let entries = vec![
        CpuEntry { percent_hundredths: 1234, frequency: 2400 },
        CpuEntry { percent_hundredths: 0, frequency: 1800 },
        CpuEntry { percent_hundredths: 10000, frequency: 3600 },
    ];
    let resp = store.refresh_and_respond(FamilyData::Cpus(entries));
    assert_eq!(
        resp.body,
        "{\"cpu_info\":[\
         {\"cpu_num\":\"cpu0\",\"frequency\":2400,\"percent\":12.34},\
         {\"cpu_num\":\"cpu1\",\"frequency\":1800,\"percent\":0.0},\
         {\"cpu_num\":\"cpu2\",\"frequency\":3600,\"percent\":100.0}]}"
    );
    let response = parse(&resp.body);
    assert!(response.is_object());
    let cpu_info = response
        .get("cpu_info")
        .expect("No `cpu_info` in response")
        .as_array()
        .expect("`cpu_info` is not an array");
    assert_eq!(cpu_info.len(), 3);
    for (i, cpu) in cpu_info.iter().enumerate() {
        assert!(cpu.is_object());
        let cpu_obj = cpu.as_object().unwrap();
        assert!(cpu_obj.contains_key("cpu_num"));
        assert!(cpu_obj.contains_key("percent"));
        assert!(cpu_obj.contains_key("frequency"));
        assert!(cpu_obj["cpu_num"].is_string());
        assert_eq!(cpu_obj["cpu_num"].as_str().unwrap(), format!("cpu{}", i));
        let percent = cpu_obj.get("percent").and_then(|v| v.as_f64()).expect("`percent` is not a float");
        assert!(percent >= 0.0 && percent <= 100.0);
        let frequency =
            cpu_obj.get("frequency").and_then(|v| v.as_u64()).expect("`frequency` is not an integer");
        assert!(frequency > 0);
    }
}

#[test]
fn test_disks_endpoint() {
    let mut store = SnapshotStore::new();
    let entries = vec![
        DiskEntry {
            device_name: String::from("/dev/sda1"),
            file_system: String::from("ext4"),
            total_space: 500_000_000_000,
            available_space: 123_456_789_000,
        },
        DiskEntry {
            device_name: String::from("/dev/sdb1"),
            file_system: String::from("btrfs"),
            total_space: 1_000,
            available_space: 1_000,
        },
    ];
    let resp = store.refresh_and_respond(FamilyData::Disks(entries));
    assert_eq!(
        resp.body,
        "[{\"available_space\":123456789000,\"device_name\":\"/dev/sda1\",\
         \"file_system\":\"ext4\",\"total_space\":500000000000},\
         {\"available_space\":1000,\"device_name\":\"/dev/sdb1\",\
         \"file_system\":\"btrfs\",\"total_space\":1000}]"
    );
    let response = parse(&resp.body);
    let disks = response.as_array().expect("Response is not an array");
    assert_eq!(disks.len(), 2);
    for disk in disks {
        let obj = disk.as_object().unwrap();
        assert!(obj.contains_key("device_name"));
        assert!(obj.contains_key("file_system"));
        let total =
            obj.get("total_space").and_then(|v| v.as_u64()).expect("`total_space` is not an integer");
        let available = obj
            .get("available_space")
            .and_then(|v| v.as_u64())
            .expect("`available_space` is not an integer");
        assert!(available <= total);
    }
}

#[test]
fn test_sysinfo_endpoint() {
    let mut store = SnapshotStore::new();
    let report = OsReport {
        kernel_version: Some(String::from("6.1.0")),
        os_version: Some(String::from("12")),
        long_os_version: Some(String::from("Linux 12 (bookworm)")),
        distribution_id: String::from("debian"),
        host_name: None,
    };
    let resp = store.refresh_and_respond(FamilyData::OsInfo(report));
    assert_eq!(
        resp.body,
        "[{\"distribution_id\":\"debian\",\"host_name\":\"N/A\",\
         \"kernel_version\":\"6.1.0\",\"long_os_version\":\"Linux 12 (bookworm)\",\
         \"os_version\":\"12\"}]"
    );
    let response = parse(&resp.body);
    let arr = response.as_array().expect("Response is not an array");
    assert_eq!(arr.len(), 1);
    let obj = arr[0].as_object().unwrap();
    for key in ["kernel_version", "os_version", "long_os_version", "distribution_id", "host_name"] {
        assert!(obj.contains_key(key));
        assert!(obj[key].is_string());
    }
    assert_eq!(obj["host_name"].as_str().unwrap(), "N/A");
}

#[test]
fn test_load_average_endpoint() {
    let mut store = SnapshotStore::new();
    let resp =
        store.refresh_and_respond(FamilyData::LoadAverage(LoadPoints { one: 52, five: 170, fifteen: 200 }));
    assert_eq!(resp.body, "[{\"fifteen\":2.0,\"five\":1.7,\"one\":0.52}]");
    let response = parse(&resp.body);
    let arr = response.as_array().unwrap();
    assert_eq!(arr.len(), 1);
    let obj = arr[0].as_object().unwrap();
    assert!(obj["one"].is_number());
    assert!(obj["five"].is_number());
    assert!(obj["fifteen"].is_number());
    assert_eq!(obj["one"].as_f64().unwrap(), 0.52);
    assert_eq!(obj["five"].as_f64().unwrap(), 1.7);
    assert_eq!(obj["fifteen"].as_f64().unwrap(), 2.0);
}

#[test]
fn test_memory_endpoint() {
    let mut store = SnapshotStore::new();
    let counters = MemoryCounters {
        available_memory: 8_000_000_000,
        free_memory: 2_000_000_000,
        free_swap: 1_000_000_000,
        total_memory: 16_000_000_000,
        total_swap: 2_000_000_000,
        used_memory: 6_000_000_000,
        used_swap: 1_000_000_000,
    };
    let resp = store.refresh_and_respond(FamilyData::Memory(counters));
    assert_eq!(
        resp.body,
        "[{\"available_memory\":8000000000,\"free_memory\":2000000000,\
         \"free_swap\":1000000000,\"total_memory\":16000000000,\
         \"total_swap\":2000000000,\"used_memory\":6000000000,\
         \"used_swap\":1000000000}]"
    );
    let response = parse(&resp.body);
    let arr = response.as_array().expect("Response is not an array");
    assert_eq!(arr.len(), 1);
    let obj = arr[0].as_object().unwrap();
    for key in [
        "available_memory",
        "free_memory",
        "free_swap",
        "total_memory",
        "total_swap",
        "used_memory",
        "used_swap",
    ] {
        assert!(obj.contains_key(key), "missing key {}", key);
        assert!(obj[key].is_u64(), "`{}` is not an integer", key);
    }
    let total = obj["total_memory"].as_u64().unwrap();
    assert!(obj["available_memory"].as_u64().unwrap() <= total);
    assert!(obj["used_memory"].as_u64().unwrap() <= total);
    assert!(obj["free_memory"].as_u64().unwrap() + obj["used_memory"].as_u64().unwrap() <= total);
}

#[test]
fn test_networks_endpoint() {
    let mut store = SnapshotStore::new();
    let entries = vec![
        NetworkEntry {
            interface_name: String::from("eth0"),
            data_received: 123_456,
            data_transmitted: 654_321,
        },
        NetworkEntry { interface_name: String::from("lo"), data_received: 0, data_transmitted: 0 },
    ];
    let resp = store.refresh_and_respond(FamilyData::Networks(entries));
    assert_eq!(
        resp.body,
        "[{\"data_received\":123456,\"data_transmitted\":654321,\"interface_name\":\"eth0\"},\
         {\"data_received\":0,\"data_transmitted\":0,\"interface_name\":\"lo\"}]"
    );
    let response = parse(&resp.body);
    let arr = response.as_array().expect("Response is not an array");
    assert_eq!(arr.len(), 2);
    for net in arr {
        let obj = net.as_object().unwrap();
        assert!(obj.contains_key("interface_name"));
        assert!(obj.contains_key("data_received"));
        assert!(obj.contains_key("data_transmitted"));
        assert!(obj["interface_name"].is_string());
        assert!(obj["data_received"].is_u64());
        assert!(obj["data_transmitted"].is_u64());
    }
}

#[test]
fn test_temperatures_endpoint() {
    let mut store = SnapshotStore::new();
    let readings = vec![
        TemperatureEntry { name: String::from("coretemp Core 0"), temp_hundredths: 4550 },
        TemperatureEntry { name: String::from(""), temp_hundredths: 9999 },
        TemperatureEntry { name: String::from("acpitz"), temp_hundredths: -250 },
    ];
    let resp = store.refresh_and_respond(FamilyData::Temperatures(readings));
    assert_eq!(
        resp.body,
        "{\"temperature_info\":[\
         {\"name\":\"coretemp Core 0\",\"temperature\":45.5},\
         {\"name\":\"acpitz\",\"temperature\":-2.5}]}"
    );
    let response = parse(&resp.body);
    let info = response
        .get("temperature_info")
        .expect("No `temperature_info` in response")
        .as_array()
        .expect("Temperature info is not an array");
    assert_eq!(info.len(), 2);
    for entry in info {
        let obj = entry.as_object().unwrap();
        assert!(obj.contains_key("name"));
        assert!(obj.contains_key("temperature"));
        assert!(obj["name"].is_string());
        assert!(!obj["name"].as_str().unwrap().is_empty());
        assert!(obj["temperature"].is_number());
    }
}

#[test]
fn test_users_endpoint() {
    let mut store = SnapshotStore::new();
    let entries = vec![
        UserEntry {
            name: String::from("alice"),
            groups: vec![String::from("wheel"), String::from("audio")],
        },
        UserEntry { name: String::from("daemon"), groups: Vec::new() },
    ];
    let resp = store.refresh_and_respond(FamilyData::Users(entries));
    assert_eq!(
        resp.body,
        "[{\"group\":[\"wheel\",\"audio\"],\"name\":\"alice\"},\
         {\"group\":[],\"name\":\"daemon\"}]"
    );
    let response = parse(&resp.body);
    let users = response.as_array().expect("Users data is not an array");
    assert_eq!(users.len(), 2);
    for user in users {
        let obj = user.as_object().unwrap();
        assert!(obj.contains_key("name"));
        assert!(obj.contains_key("group"));
        assert!(obj["name"].is_string());
        let groups = obj["group"].as_array().expect("Group data is not an array");
        for g in groups {
            assert!(g.is_string());
        }
    }
}
