use proxy_balancer::text::IntErrorKind;
use proxy_balancer::utils::{
    dataset_dir_from_ds_id, dataset_dir_from_uri, datasource_id_from_uri, db_tiler,
    file_path_from_uri, mbtiles_path_from_ds_id, mbtiles_shm_path, mbtiles_wal_path,
    pid_file_path, save_process_pid, try_save_process_pid, zxy_from_uri, SaveStep, UriError,
};

const TILE: &str = "/api/tile/ds1/5/10/15.png";

fn parts(p: &proxy_balancer::utils::DiskPath) -> Vec<&str> {
    p.parts.iter().map(|s| s.as_str()).collect()
}

#[test]
fn datasource_id_is_the_fourth_element() {
    assert_eq!(datasource_id_from_uri(TILE).unwrap(), "ds1");
    assert_eq!(datasource_id_from_uri("/api/tile//5/10/15.png").unwrap(), "");
    assert_eq!(datasource_id_from_uri("/a/b/c/d/e/f/g/h").unwrap(), "c");
}

#[test]
fn short_paths_are_invalid() {
    match datasource_id_from_uri("/api/tile/ds1/5/10") {
        Err(UriError::InvalidPath { elements }) => {
            assert_eq!(elements, vec!["", "api", "tile", "ds1", "5", "10"]);
        }
        other => panic!("{:?}", other),
    }
    assert!(matches!(dataset_dir_from_uri("/cwd", ""), Err(UriError::InvalidPath { .. })));
    assert!(matches!(file_path_from_uri("/cwd", "/api/tile"), Err(UriError::InvalidPath { .. })));
    assert!(matches!(zxy_from_uri("/api/tile/ds1"), Err(UriError::InvalidPath { .. })));
}

#[test]
fn invalid_path_message_lists_the_elements() {
    let e = datasource_id_from_uri("/api/tile/d\"s").unwrap_err();
    assert_eq!(e.message(), "Path of URI is invalid: [\"\", \"api\", \"tile\", \"d\\\"s\"]");
}

#[test]
fn directories_and_databases() {
    assert_eq!(parts(&dataset_dir_from_uri("/cwd", TILE).unwrap()), vec!["/cwd", "tiles", "ds1"]);
    assert_eq!(parts(&dataset_dir_from_ds_id("/cwd", "ds1").unwrap()), vec!["/cwd", "tiles", "ds1"]);
    assert_eq!(
        parts(&mbtiles_path_from_ds_id("/cwd", "ds1").unwrap()),
        vec!["/cwd", "tiles", "ds1", "ds1.mbtiles"]
    );
    assert_eq!(parts(&mbtiles_wal_path("/cwd", "ds1")), vec!["/cwd", "tiles", "ds1", "ds1.mbtiles-wal"]);
    assert_eq!(parts(&mbtiles_shm_path("/cwd", "ds1")), vec!["/cwd", "tiles", "ds1", "ds1.mbtiles-shm"]);
    assert_eq!(parts(&db_tiler("/cwd").unwrap()), vec!["/cwd", "data", "tiler.db"]);
    assert_eq!(parts(&pid_file_path("/cwd")), vec!["/cwd", "scripts", "PIDs"]);
    assert_eq!(db_tiler("/cwd").unwrap().to_string(), "/cwd/data/tiler.db");
}

#[test]
fn tile_file_path() {
    assert_eq!(
        parts(&file_path_from_uri("/cwd", TILE).unwrap()),
        vec!["/cwd", "tiles", "ds1", "5", "10", "15.png"]
    );
    // z and x are read as numbers and written back in plain decimal
    assert_eq!(
        parts(&file_path_from_uri("/cwd", "/api/tile/ds1/+05/-007/15.png").unwrap()),
        vec!["/cwd", "tiles", "ds1", "5", "-7", "15.png"]
    );
    assert!(matches!(
        file_path_from_uri("/cwd", "/api/tile/ds1/z/10/15.png"),
        Err(UriError::ParseZ(IntErrorKind::InvalidDigit))
    ));
    assert!(matches!(
        file_path_from_uri("/cwd", "/api/tile/ds1/5//15.png"),
        Err(UriError::ParseX(IntErrorKind::Empty))
    ));
    assert!(matches!(
        file_path_from_uri("/cwd", "/api/tile/ds1/5/9223372036854775808/15.png"),
        Err(UriError::ParseX(IntErrorKind::PosOverflow))
    ));
}

#[test]
fn tile_coordinates() {
    assert_eq!(zxy_from_uri(TILE).unwrap(), (10, 15, 5));
    assert_eq!(zxy_from_uri("/api/tile/ds1/0/0/0.mvt").unwrap(), (0, 0, 0));
    assert_eq!(zxy_from_uri("/api/tile/ds1/22/4194303/18446744073709551615.pbf").unwrap(), (4194303, u64::MAX, 22));
    // what follows a second dot is not looked at
    assert_eq!(zxy_from_uri("/api/tile/ds1/5/10/15.png.bak").unwrap(), (10, 15, 5));
}

#[test]
fn tile_coordinate_errors() {
    assert!(matches!(
        zxy_from_uri("/api/tile/ds1/256/10/15.png"),
        Err(UriError::ParseZ(IntErrorKind::PosOverflow))
    ));
    assert!(matches!(
        zxy_from_uri("/api/tile/ds1/-1/10/15.png"),
        Err(UriError::ParseZ(IntErrorKind::InvalidDigit))
    ));
    assert!(matches!(
        zxy_from_uri("/api/tile/ds1/5/x/15.png"),
        Err(UriError::ParseX(IntErrorKind::InvalidDigit))
    ));
    assert!(matches!(
        zxy_from_uri("/api/tile/ds1/5/10/.png"),
        Err(UriError::ParseY(IntErrorKind::Empty))
    ));
    assert!(matches!(
        zxy_from_uri("/api/tile/ds1/5/10/18446744073709551616.png"),
        Err(UriError::ParseY(IntErrorKind::PosOverflow))
    ));
    assert_eq!(
        zxy_from_uri("/api/tile/ds1/5/x/15.png").unwrap_err().message(),
        "Error parse X: invalid digit found in string"
    );
}

#[test]
fn only_three_extensions_are_accepted() {
    for ext in ["png", "mvt", "pbf"] {
        assert!(zxy_from_uri(&format!("/api/tile/ds1/5/10/15.{}", ext)).is_ok());
    }
    for ext in ["jpg", "json", "", "pn", "pngx"] {
        match zxy_from_uri(&format!("/api/tile/ds1/5/10/15.{}", ext)) {
            Err(UriError::Extension { got }) => assert_eq!(got, ext),
            other => panic!("{:?}", other),
        }
    }
    // a name without a dot has no extension
    match zxy_from_uri("/api/tile/ds1/5/10/15") {
        Err(UriError::Extension { got }) => assert_eq!(got, ""),
        other => panic!("{:?}", other),
    }
    assert_eq!(
        zxy_from_uri("/api/tile/ds1/5/10/15.jpg").unwrap_err().message(),
        "Extension of tile must be 'png', 'mvt' or 'pbf'. Got jpg"
    );
}

#[test]
fn extensions_are_accepted_in_any_case() {
    assert_eq!(zxy_from_uri("/api/tile/ds1/5/10/15.PNG").unwrap(), (10, 15, 5));
    assert_eq!(zxy_from_uri("/api/tile/ds1/5/10/15.Mvt").unwrap(), (10, 15, 5));
    assert_eq!(zxy_from_uri("/api/tile/ds1/5/10/15.pBF").unwrap(), (10, 15, 5));
    assert!(zxy_from_uri("/api/tile/ds1/5/10/15.JPG").is_err());
}

#[test]
fn list_of_processes() {
    let workers = vec![(100u32, vec![(101u32, 100u32), (102, 100)]), (200, vec![(201, 200)])];
    let file = save_process_pid(&workers, 999);
    assert!(file.complete);
    assert_eq!(file.text, "100\n101\n102\n200\n201\n999\n");

    let none: Vec<(u32, Vec<(u32, u32)>)> = Vec::new();
    let file = save_process_pid(&none, 7);
    assert!(file.complete);
    assert_eq!(file.text, "7\n");
}

#[test]
fn list_of_processes_stops_at_a_worker_without_children() {
    let workers = vec![(100u32, vec![(101u32, 100u32)]), (200, vec![]), (300, vec![(301, 300)])];
    let file = save_process_pid(&workers, 999);
    assert!(!file.complete);
    assert_eq!(file.text, "100\n101\n");
}

#[test]
fn list_of_processes_is_tried_ten_times() {
    assert_eq!(try_save_process_pid(0, true), SaveStep::Done);
    assert_eq!(try_save_process_pid(9, true), SaveStep::Done);
    assert_eq!(try_save_process_pid(0, false), SaveStep::Retry);
    assert_eq!(try_save_process_pid(8, false), SaveStep::Retry);
    assert_eq!(try_save_process_pid(9, false), SaveStep::GiveUp);
}

#[test]
fn cache_database_is_the_first_mbtiles_file() {
    let names = |list: &[&str]| list.iter().map(|s| s.to_string()).collect::<Vec<String>>();
    let found = proxy_balancer::utils::mbtiles_path_from_uri(
        "/cwd",
        TILE,
        &names(&["5", "notes.txt", "ds1.mbtiles-wal", "ds1.mbtiles", "other.mbtiles"]),
    )
    .unwrap();
    assert_eq!(parts(&found), vec!["/cwd", "tiles", "ds1", "ds1.mbtiles"]);
    let found =
        proxy_balancer::utils::mbtiles_path_from_uri("/cwd", TILE, &names(&["b.mbtiles", "a.mbtiles"])).unwrap();
    assert_eq!(parts(&found), vec!["/cwd", "tiles", "ds1", "b.mbtiles"]);
    for list in [names(&[]), names(&["mbtiles", ".mbtiles", "ds1.MBTILES", "ds1.mbtiles-shm", "ds1.mbtiles.bak"])] {
        match proxy_balancer::utils::mbtiles_path_from_uri("/cwd", TILE, &list) {
            Err(e) => assert_eq!(e.message(), "DataBase of MBTiles for DataSource ID 'ds1' not found"),
            Ok(p) => panic!("{:?}", p),
        }
    }
    assert!(matches!(
        proxy_balancer::utils::mbtiles_path_from_uri("/cwd", "/api/tile", &names(&["ds1.mbtiles"])),
        Err(proxy_balancer::utils::MbtilesError::Uri { .. })
    ));
}

#[test]
fn extensions_are_accepted_as_std_lower_cases_them() {
    use_all_characters(|c| {
        for ext in ["png", "mvt", "pbf"] {
            for (at, letter) in ext.char_indices() {
                let mut written = String::new();
                written.push_str(&ext[..at]);
                written.push(c);
                written.push_str(&ext[at + letter.len_utf8()..]);
                let by_std = written == ext || written.to_lowercase() == ext;
                assert_eq!(proxy_balancer::utils::is_accepted_extension(&written), by_std, "{:?}", written);
            }
        }
    });
    for (ext, accepted) in [("PNG", true), ("pNg", true), ("Mvt", true), ("PBF", true), ("", false), ("pn", false), ("pngg", false), ("jpg", false), ("p\u{212a}g", false)] {
        assert_eq!(proxy_balancer::utils::is_accepted_extension(ext), accepted);
    }
}

fn use_all_characters(check: impl Fn(char)) {
    for code in 0u32..=0x10ffff {
        if let Some(c) = char::from_u32(code) {
            check(c);
        }
    }
}
