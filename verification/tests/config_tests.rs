use hedge_cli::config::{
    default_config_file, resolve_config, AvailableSite, LocalConfigFile, LocalConfigFileDownload,
    LocalConfigFileWorkPath,
};
use hedge_cli::error::{ApiResultError, ApplicationError};
use hedge_cli::import::{OrderTimeType, PartitionDate};
use hedge_cli::text::{i64_to_dec, u64_to_dec, u64_to_dec_pad2, u64_to_dec_pad4};

#[test]
fn defaults_fill_every_unset_field() {
    let file = default_config_file();
    let config = resolve_config(file, "/home/u/.config/Hedge-v3".to_string());
    assert!(!config.debug_mode);
    assert_eq!(config.work_path.application_path, None);
    assert_eq!(config.work_path.userdata_path, "/home/u/.config/Hedge-v3");
    assert_eq!(config.work_path.server_path, "/home/u/.config/Hedge-v3/server");
    assert_eq!(config.work_path.appdata_path, "/home/u/.config/Hedge-v3/appdata");
    assert_eq!(config.download.waiting_interval, None);
    assert_eq!(config.download.timeout_interval, None);
    assert_eq!(config.download.proxy, None);
    assert!(config.download.available_sites.is_empty());
}

#[test]
fn configured_values_win_over_defaults() {
    let file = LocalConfigFile {
        debug_mode: Some(true),
        work_path: LocalConfigFileWorkPath {
            application_path: Some("/apps/hedge".to_string()),
            server_path: Some("/srv/hedge".to_string()),
            appdata_path: None,
            userdata_path: Some("/data/hedge".to_string()),
        },
        download: Some(LocalConfigFileDownload {
            waiting_interval: Some(5),
            timeout_interval: Some(30),
            proxy: Some("http://proxy:8080".to_string()),
            available_sites: Some(vec![AvailableSite {
                site: "sankakucomplex".to_string(),
                rule: "sankakucomplex".to_string(),
            }]),
        }),
    };
    let config = resolve_config(file, "/home/u/.config/Hedge-v3".to_string());
    assert!(config.debug_mode);
    assert_eq!(config.work_path.application_path, Some("/apps/hedge".to_string()));
    assert_eq!(config.work_path.userdata_path, "/data/hedge");
    assert_eq!(config.work_path.server_path, "/srv/hedge");
    // The unset appdata directory hangs off the configured userdata one.
    assert_eq!(config.work_path.appdata_path, "/data/hedge/appdata");
    assert_eq!(config.download.waiting_interval, Some(5));
    assert_eq!(config.download.timeout_interval, Some(30));
    assert_eq!(config.download.proxy, Some("http://proxy:8080".to_string()));
    assert_eq!(config.download.available_sites.len(), 1);
}

#[test]
fn decimal_rendering_is_exact() {
    assert_eq!(u64_to_dec(0), "0");
    assert_eq!(u64_to_dec(7), "7");
    assert_eq!(u64_to_dec(10), "10");
    assert_eq!(u64_to_dec(30000), "30000");
    assert_eq!(u64_to_dec(18446744073709551615), "18446744073709551615");
    assert_eq!(i64_to_dec(-1), "-1");
    assert_eq!(i64_to_dec(-9223372036854775808), "-9223372036854775808");
    assert_eq!(i64_to_dec(4000), "4000");
}

#[test]
fn padded_rendering_is_exact() {
    assert_eq!(u64_to_dec_pad2(3), "03");
    assert_eq!(u64_to_dec_pad2(12), "12");
    assert_eq!(u64_to_dec_pad4(7), "0007");
    assert_eq!(u64_to_dec_pad4(42), "0042");
    assert_eq!(u64_to_dec_pad4(587), "0587");
    assert_eq!(u64_to_dec_pad4(2024), "2024");
}

#[test]
fn partition_dates_render_as_ymd() {
    let d = PartitionDate::new(2024, 3, 9).expect("valid date");
    assert_eq!(d.format_ymd(), "2024-03-09");
    let d = PartitionDate::new(800, 12, 31).expect("valid date");
    assert_eq!(d.format_ymd(), "0800-12-31");
}

#[test]
fn partition_dates_reject_out_of_range_fields() {
    assert!(PartitionDate::new(2024, 0, 1).is_none());
    assert!(PartitionDate::new(2024, 13, 1).is_none());
    assert!(PartitionDate::new(2024, 1, 0).is_none());
    assert!(PartitionDate::new(2024, 1, 32).is_none());
    assert!(PartitionDate::new(10000, 1, 1).is_none());
}

#[test]
fn order_time_codes_match_the_api() {
    assert_eq!(OrderTimeType::CreateTime.to_json_code(), "CREATE_TIME");
    assert_eq!(OrderTimeType::UpdateTime.to_json_code(), "UPDATE_TIME");
    assert_eq!(OrderTimeType::ImportTime.to_json_code(), "IMPORT_TIME");
}

#[test]
fn errors_keep_their_messages() {
    let e = ApplicationError::new("something went wrong");
    assert_eq!(e.message, "something went wrong");
    let e = ApiResultError::new("NOT_FOUND", "no such entity");
    assert_eq!(e.code, "NOT_FOUND");
    assert_eq!(e.message, "no such entity");
}
