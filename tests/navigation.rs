use savswapds::command::{transfer_command, TransferDirection};
use savswapds::config::Config;
use savswapds::navigation::{start, step, Action, Event, Menu};

fn line(s: &str) -> Event {
    Event::Line(s.to_string())
}

fn file_menu(direction: TransferDirection, names: &[&str]) -> Menu {
    Menu::FileSelect {
        direction,
        files: names.iter().map(|n| n.to_string()).collect(),
    }
}

fn listed_files(menu: &Menu) -> Vec<String> {
    match menu {
        Menu::FileSelect { files, .. } => files.clone(),
        _ => panic!("not at the file menu"),
    }
}

#[test]
fn session_starts_with_probe() {
    assert!(matches!(start(), Menu::Probing));
}

#[test]
fn probe_success_shows_direction_menu() {
    let (m, a) = step(start(), Event::Probed(true));
    assert!(matches!(m, Menu::Direction));
    assert_eq!(a, Action::Show);
}

#[test]
fn probe_failure_ends_before_any_menu() {
    let (m, a) = step(start(), Event::Probed(false));
    assert!(matches!(m, Menu::Finished));
    assert_eq!(a, Action::NoDevice);
}

#[test]
fn zero_at_direction_quits() {
    let (m, a) = step(Menu::Direction, line("0"));
    assert!(matches!(m, Menu::Finished));
    assert_eq!(a, Action::Quit);
}

#[test]
fn direction_reads_only_first_character() {
    let (m, a) = step(Menu::Direction, line("1abc"));
    assert!(matches!(m, Menu::Fetching(TransferDirection::PhoneToPc)));
    assert_eq!(a, Action::Fetch(TransferDirection::PhoneToPc));
}

#[test]
fn invalid_lines_at_direction_retry() {
    for input in ["", "3", "9", "x", " 1", "-1"] {
        let (m, a) = step(Menu::Direction, line(input));
        assert!(matches!(m, Menu::Direction));
        assert_eq!(a, Action::Retry);
    }
}

#[test]
fn invalid_lines_at_file_menu_retry() {
    for input in ["", "x", "+1", "1x", "3", "10", "-1"] {
        let (m, a) = step(file_menu(TransferDirection::PhoneToPc, &["a", "b"]), line(input));
        assert_eq!(listed_files(&m), vec!["a", "b"]);
        assert_eq!(a, Action::Retry);
    }
}

#[test]
fn invalid_lines_at_confirm_retry() {
    for input in ["", "0", "3", "n", "y"] {
        let menu = Menu::Confirm {
            direction: TransferDirection::PcToPhone,
            files: vec!["a".to_string()],
            file: "a".to_string(),
        };
        let (m, a) = step(menu, line(input));
        match m {
            Menu::Confirm { direction, files, file } => {
                assert_eq!(direction, TransferDirection::PcToPhone);
                assert_eq!(files, vec!["a"]);
                assert_eq!(file, "a");
            },
            _ => panic!("left the confirmation"),
        }
        assert_eq!(a, Action::Retry);
    }
}

#[test]
fn empty_listing_offers_only_back() {
    let (m, a) = step(Menu::Fetching(TransferDirection::PhoneToPc), Event::Listed(Vec::new()));
    assert!(listed_files(&m).is_empty());
    assert_eq!(a, Action::Show);
    let (m, a) = step(m, line("1"));
    assert!(listed_files(&m).is_empty());
    assert_eq!(a, Action::Retry);
    let (m, a) = step(m, line("0"));
    assert!(matches!(m, Menu::Direction));
    assert_eq!(a, Action::Show);
}

#[test]
fn events_of_other_menus_are_ignored() {
    let (m, a) = step(Menu::Direction, Event::Probed(true));
    assert!(matches!(m, Menu::Direction));
    assert_eq!(a, Action::Ignore);
    let (m, a) = step(Menu::Fetching(TransferDirection::PcToPhone), line("1"));
    assert!(matches!(m, Menu::Fetching(TransferDirection::PcToPhone)));
    assert_eq!(a, Action::Ignore);
    let (m, a) = step(Menu::Finished, line("1"));
    assert!(matches!(m, Menu::Finished));
    assert_eq!(a, Action::Ignore);
}

#[test]
fn back_then_same_direction_fetches_again() {
    let (m, a) = step(file_menu(TransferDirection::PhoneToPc, &["old.sav"]), line("0"));
    assert!(matches!(m, Menu::Direction));
    assert_eq!(a, Action::Show);
    let (m, a) = step(m, line("1"));
    assert_eq!(a, Action::Fetch(TransferDirection::PhoneToPc));
    let (m, _) = step(m, Event::Listed(b"new.sav\n".to_vec()));
    assert_eq!(listed_files(&m), vec!["new.sav"]);
}

#[test]
fn declining_returns_to_same_listing() {
    let names = ["c.sav", "a.sav", "b.sav"];
    let (m, a) = step(file_menu(TransferDirection::PcToPhone, &names), line("3"));
    assert_eq!(a, Action::Show);
    match &m {
        Menu::Confirm { file, .. } => assert_eq!(file, "b.sav"),
        _ => panic!("not at the confirmation"),
    }
    let (m, a) = step(m, line("2"));
    assert_eq!(a, Action::Show);
    assert_eq!(listed_files(&m), vec!["c.sav", "a.sav", "b.sav"]);
}

#[test]
fn scenario_back_from_device_listing() {
    let (m, _) = step(start(), Event::Probed(true));
    let (m, a) = step(m, line("1"));
    assert_eq!(a, Action::Fetch(TransferDirection::PhoneToPc));
    let (m, _) = step(m, Event::Listed(b"x.sav\ny.sav\n".to_vec()));
    let (m, a) = step(m, line("0"));
    assert!(matches!(m, Menu::Direction));
    assert_eq!(a, Action::Show);
}

#[test]
fn scenario_push_second_file() {
    let config = Config {
        phone_path: "/sdcard/saves/".to_string(),
        pc_path: "C:\\saves\\".to_string(),
    };
    let (m, _) = step(start(), Event::Probed(true));
    let (m, a) = step(m, line("2"));
    assert_eq!(a, Action::Fetch(TransferDirection::PcToPhone));
    let (m, _) = step(m, Event::Listed(b"a.sav\r\nb.sav\r\n".to_vec()));
    assert_eq!(listed_files(&m), vec!["a.sav", "b.sav"]);
    let (m, _) = step(m, line("2"));
    let (m, a) = step(m, line("1"));
    assert!(matches!(m, Menu::Direction));
    let expected = Action::Transfer {
        direction: TransferDirection::PcToPhone,
        file: "b.sav".to_string(),
    };
    assert_eq!(a, expected);
    if let Action::Transfer { direction, file } = a {
        let c = transfer_command(&config, &file, direction);
        assert_eq!(c.program, "adb.exe");
        assert_eq!(c.args, vec!["push", "C:\\saves\\b.sav", "/sdcard/saves/"]);
    }
}
