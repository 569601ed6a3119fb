use zeckit::compose::DockerCompose;
use zeckit::config::update_zebra_config;
use zeckit::indexer::{after_ping, wait_for_zaino, BackendNotReady, Ping, PingStep};
use zeckit::seed::{SeedManager, DEFAULT_SEED_PHRASE};
use zeckit::smoke::{
    funds_moved, send_answer, shield_answer, test_faucet_address, test_faucet_health,
    test_shielded_send, test_wallet_shield, test_wallet_sync, test_zebra_rpc, CheckFailure,
    SendCheck, ShieldAnswer, ShieldCheck, SuiteFailed, SuiteTally,
};
use zeckit::sync_job::LogLevel;
use zeckit::text::{decimal, starts_with, str_eq, trim};
use zeckit::validation::{
    validate_address_via_zebra, AddressError, AddressVerdict, ValidationReply,
};

fn strings(items: &[&str]) -> Vec<String> {
    items.iter().map(|s| s.to_string()).collect()
}

#[test]
fn zaino_answers_at_some_attempt() {
    let result = wait_for_zaino(
        |attempt: u32| if attempt >= 3 { Ping::Height(250 + attempt as u64) } else { Ping::Failed },
        60,
    );
    assert_eq!(result, Ok(253));
}

#[test]
fn zaino_is_given_up_after_all_attempts() {
    let result = wait_for_zaino(
        |attempt: u32| if attempt % 2 == 0 { Ping::Failed } else { Ping::TimedOut },
        60,
    );
    let error = BackendNotReady { attempts: 60, waited_secs: 300 };
    assert_eq!(result, Err(error));
    assert_eq!(error.message(), "Zaino not ready after 300 seconds");
    assert_eq!(
        wait_for_zaino(|_a: u32| Ping::Height(1), 0),
        Err(BackendNotReady { attempts: 0, waited_secs: 0 })
    );
    assert_eq!(
        wait_for_zaino(|a: u32| if a == 60 { Ping::Height(9) } else { Ping::Failed }, 60),
        Ok(9)
    );
}

#[test]
fn pings_are_followed_up() {
    assert_eq!(
        after_ping(2, 60, Ping::Height(101)),
        PingStep::Ready { height: 101, took_secs: 10 }
    );
    assert_eq!(
        after_ping(1, 60, Ping::Failed),
        PingStep::Retry { level: LogLevel::Debug, waited_secs: 5, pause_secs: 5 }
    );
    assert_eq!(
        after_ping(6, 60, Ping::TimedOut),
        PingStep::Retry { level: LogLevel::Info, waited_secs: 30, pause_secs: 5 }
    );
    assert_eq!(
        after_ping(60, 60, Ping::Failed),
        PingStep::GiveUp { level: LogLevel::Info, waited_secs: 300 }
    );
    assert_eq!(
        after_ping(u32::MAX, u32::MAX, Ping::Failed),
        PingStep::GiveUp { level: LogLevel::Debug, waited_secs: 21474836475 }
    );
}

fn reply(error: Option<&str>, verdict: Option<(bool, Option<&str>)>) -> ValidationReply {
    ValidationReply {
        error: error.map(|e| e.to_string()),
        result: verdict.map(|(isvalid, address)| AddressVerdict {
            isvalid,
            address: address.map(|a| a.to_string()),
        }),
    }
}

#[test]
fn valid_regtest_addresses_are_accepted() {
    let accepted = validate_address_via_zebra(
        "tmBsTi2xWTjUdEXnuTceL7fecEQKeWaPDJd",
        &reply(None, Some((true, None))),
    );
    assert_eq!(accepted.unwrap(), "tmBsTi2xWTjUdEXnuTceL7fecEQKeWaPDJd");
    let canonical = validate_address_via_zebra(
        "uregtest1abcdefghijk",
        &reply(None, Some((true, Some("uregtest1canonical")))),
    );
    assert_eq!(canonical.unwrap(), "uregtest1canonical");
    let sapling =
        validate_address_via_zebra("zregtestsapling1qqq", &reply(None, Some((true, None))));
    assert_eq!(sapling.unwrap(), "zregtestsapling1qqq");
}

#[test]
fn addresses_are_refused_in_order() {
    let rpc = validate_address_via_zebra(
        "tmAddress",
        &reply(Some("bad request"), Some((true, None))),
    );
    match rpc {
        Err(AddressError::Rpc(ref message)) => assert_eq!(message, "bad request"),
        ref other => panic!("unexpected: {:?}", other),
    }
    assert_eq!(rpc.unwrap_err().message(), "RPC validation error: bad request");

    let none = validate_address_via_zebra("tmAddress", &reply(None, None)).unwrap_err();
    assert!(matches!(none, AddressError::NoResult));
    assert_eq!(none.message(), "No result in RPC response");

    let invalid =
        validate_address_via_zebra("t1mainnet", &reply(None, Some((false, None)))).unwrap_err();
    assert!(matches!(invalid, AddressError::NotValid));
    assert_eq!(invalid.message(), "Address is not valid");

    let foreign =
        validate_address_via_zebra("t1mainnet", &reply(None, Some((true, None)))).unwrap_err();
    assert!(matches!(foreign, AddressError::NotRegtest));
    assert_eq!(foreign.message(), "Address is not a regtest address");

    let short = validate_address_via_zebra("t", &reply(None, Some((true, None)))).unwrap_err();
    assert!(matches!(short, AddressError::NotRegtest));
}

#[test]
fn config_setting_is_replaced_by_the_pattern() {
    let config = "[mining]\nminer_address   =  \"tmOld\"\nother = 1\n";
    let updated = update_zebra_config(config, "tmNew").unwrap();
    assert_eq!(updated, "[mining]\nminer_address = \"tmNew\"\nother = 1\n");
}

#[test]
fn config_replaces_only_the_first_setting() {
    let config = "miner_address=\"a\"\nminer_address=\"b\"\n";
    let updated = update_zebra_config(config, "tmNew").unwrap();
    assert_eq!(updated, "miner_address = \"tmNew\"\nminer_address=\"b\"\n");
}

#[test]
fn config_mention_without_a_setting_is_left_alone() {
    let config = "# miner_address goes here\n[mining]\n";
    assert_eq!(update_zebra_config(config, "tmNew").unwrap(), config);
}

#[test]
fn config_setting_is_put_behind_the_heading() {
    let config = "[network]\nnetwork = \"Regtest\"\n[mining]\nextra = 1\n";
    let updated = update_zebra_config(config, "tmNew").unwrap();
    assert_eq!(
        updated,
        "[network]\nnetwork = \"Regtest\"\n[mining]\nminer_address = \"tmNew\"\nextra = 1\n"
    );
    let twice = update_zebra_config("[mining][mining]", "x").unwrap();
    assert_eq!(twice, "[mining]\nminer_address = \"x\"[mining]\nminer_address = \"x\"");
}

#[test]
fn config_section_is_added_at_the_end() {
    let updated = update_zebra_config("[network]\n", "tmNew").unwrap();
    assert_eq!(updated, "[network]\n\n\n[mining]\nminer_address = \"tmNew\"\n");
    let empty = update_zebra_config("", "tmNew").unwrap();
    assert_eq!(empty, "\n\n[mining]\nminer_address = \"tmNew\"\n");
}

#[test]
fn seed_file_lies_in_the_data_directory() {
    assert_eq!(SeedManager::new("/var/zingo").seed_file(), "/var/zingo/.wallet_seed");
    assert_eq!(SeedManager::new("/var/zingo/").seed_file(), "/var/zingo/.wallet_seed");
    assert_eq!(SeedManager::new("").seed_file(), ".wallet_seed");
    assert_eq!(SeedManager::new("data").seed_file(), "data/.wallet_seed");
    assert_eq!(SeedManager::new("/").seed_file(), "/.wallet_seed");
}

#[test]
fn stored_seed_is_used_trimmed() {
    let manager = SeedManager::new("/data");
    let resolved = manager.get_or_create_seed(Some("  alpha beta gamma \n"));
    assert_eq!(resolved.seed, "alpha beta gamma");
    assert!(!resolved.store);
    let blank = manager.get_or_create_seed(Some(" \n\t"));
    assert_eq!(blank.seed, "");
    assert!(!blank.store);
}

#[test]
fn missing_seed_is_the_default_phrase() {
    let manager = SeedManager::new("/data");
    let resolved = manager.get_or_create_seed(None);
    assert_eq!(resolved.seed, DEFAULT_SEED_PHRASE);
    assert!(resolved.store);
    assert_eq!(resolved.seed.split(' ').count(), 24);
    assert!(resolved.seed.ends_with(" art"));
}

#[test]
fn text_helpers_agree_with_std() {
    for sample in ["", " ", "a", " a", "a ", "\t a b \r\n", "\u{a0}x\u{3000}", "é \u{2003}"] {
        assert_eq!(trim(sample), sample.trim());
    }
    assert!(str_eq("abc", "abc"));
    assert!(!str_eq("abc", "abd"));
    assert!(!str_eq("abc", "ab"));
    assert!(str_eq("", ""));
    assert!(str_eq("é", "é"));
    assert!(starts_with("tmAddress", "tm"));
    assert!(starts_with("tm", "tm"));
    assert!(!starts_with("t", "tm"));
    assert!(starts_with("anything", ""));
    assert!(!starts_with("émile", "e"));
    assert!(starts_with("émile", "ém"));
    for n in [0u64, 7, 10, 42, 100, 12345, u64::MAX] {
        assert_eq!(decimal(n), n.to_string());
    }
}

#[test]
fn compose_commands_are_built() {
    let compose = DockerCompose::new("/srv/zeckit");
    assert_eq!(compose.project_dir(), "/srv/zeckit");
    let up = compose.up(&strings(&["zebra", "faucet"]));
    assert_eq!(up.dir, "/srv/zeckit");
    assert_eq!(up.args, strings(&["compose", "up", "-d", "zebra", "faucet"]));
    assert_eq!(compose.up(&Vec::new()).args, strings(&["compose", "up", "-d"]));
    assert_eq!(compose.down(false).args, strings(&["compose", "down"]));
    assert_eq!(compose.down(true).args, strings(&["compose", "down", "-v"]));
    assert_eq!(compose.ps().args, strings(&["compose", "ps", "--format", "table"]));
    assert_eq!(compose.is_running().args, strings(&["compose", "ps", "-q"]));
    assert_eq!(
        compose.logs("zebra", 100).args,
        strings(&["compose", "logs", "--tail", "100", "zebra"])
    );
    assert_eq!(
        compose.exec("zebra", &strings(&["ls", "-l"])).args,
        strings(&["compose", "exec", "-T", "zebra", "ls", "-l"])
    );
    assert_eq!(
        compose.images("zaino").args,
        strings(&["compose", "--profile", "zaino", "config", "--images"])
    );
    assert_eq!(
        compose.inspect_image("  zeckit/faucet:latest \n").args,
        strings(&["image", "inspect", "zeckit/faucet:latest"])
    );
    let copy = compose.clone();
    assert_eq!(copy.project_dir(), "/srv/zeckit");
}

#[test]
fn images_are_built_only_when_needed() {
    let compose = DockerCompose::new("/srv/zeckit");
    let ready = compose.up_with_profile("lwd", false, true);
    assert!(ready.build.is_none());
    assert_eq!(ready.start.args, strings(&["compose", "--profile", "lwd", "up", "-d"]));
    let missing = compose.up_with_profile("lwd", false, false);
    assert_eq!(
        missing.build.unwrap().args,
        strings(&["compose", "--profile", "lwd", "build"])
    );
    let forced = compose.up_with_profile("zaino", true, true);
    assert!(forced.build.is_some());
    assert_eq!(forced.start.dir, "/srv/zeckit");
    assert!(compose.images_exist(true, &vec![true, true]));
    assert!(compose.images_exist(true, &Vec::new()));
    assert!(!compose.images_exist(true, &vec![true, false]));
    assert!(!compose.images_exist(false, &vec![true]));
}

#[test]
fn checks_judge_their_answers() {
    assert_eq!(test_zebra_rpc(true), Ok(()));
    assert_eq!(test_zebra_rpc(false), Err(CheckFailure::RpcNotResponding));
    assert_eq!(test_faucet_health(true, Some("healthy")), Ok(()));
    assert_eq!(test_faucet_health(false, Some("healthy")), Err(CheckFailure::HealthRequestFailed));
    assert_eq!(test_faucet_health(true, Some("degraded")), Err(CheckFailure::NotHealthy));
    assert_eq!(test_faucet_health(true, None), Err(CheckFailure::NotHealthy));
    assert_eq!(test_faucet_address(true, true, true), Ok(()));
    assert_eq!(test_faucet_address(false, true, true), Err(CheckFailure::AddressRequestFailed));
    assert_eq!(test_faucet_address(true, false, false), Err(CheckFailure::MissingUnifiedAddress));
    assert_eq!(
        test_faucet_address(true, true, false),
        Err(CheckFailure::MissingTransparentAddress)
    );
    assert_eq!(test_wallet_sync(true, Some("synced")), Ok(()));
    assert_eq!(test_wallet_sync(false, None), Err(CheckFailure::SyncRequestFailed));
    assert_eq!(test_wallet_sync(true, Some("syncing")), Err(CheckFailure::SyncIncomplete));
    assert_eq!(send_answer(true, Some("sent")), Ok(()));
    assert_eq!(send_answer(false, Some("sent")), Err(CheckFailure::SendRequestFailed));
    assert_eq!(send_answer(true, None), Err(CheckFailure::SendIncomplete));
    assert_eq!(CheckFailure::RpcNotResponding.message(), "Zebra RPC not responding");
    assert_eq!(
        CheckFailure::SendIncomplete.message(),
        "Shielded send did not complete as expected"
    );
}

#[test]
fn shield_check_goes_by_the_balance() {
    assert_eq!(test_wallet_shield(20_000, 0), ShieldCheck::Shield);
    assert_eq!(test_wallet_shield(19_999, 100_000), ShieldCheck::AlreadyShielded);
    assert_eq!(test_wallet_shield(19_999, 99_999), ShieldCheck::TooSmall);
    assert_eq!(test_wallet_shield(0, 99_999), ShieldCheck::NoBalance);
    assert_eq!(test_wallet_shield(0, 0), ShieldCheck::NoBalance);
    assert_eq!(shield_answer(true, Some("shielded")), Ok(ShieldAnswer::Shielded));
    assert_eq!(shield_answer(true, Some("no_funds")), Ok(ShieldAnswer::NoFunds));
    assert_eq!(shield_answer(true, Some("queued")), Ok(ShieldAnswer::Other));
    assert_eq!(shield_answer(true, None), Ok(ShieldAnswer::Other));
    assert_eq!(shield_answer(false, Some("shielded")), Err(CheckFailure::ShieldRequestFailed));
    assert!(funds_moved(100, 0, 100, 1));
    assert!(funds_moved(100, 0, 99, 0));
    assert!(!funds_moved(100, 5, 100, 5));
    assert!(!funds_moved(100, 5, 101, 4));
}

#[test]
fn send_check_needs_a_tenth_of_a_coin() {
    assert_eq!(test_shielded_send(9_999_999), SendCheck::Skip);
    assert_eq!(test_shielded_send(10_000_000), SendCheck::Send { amount: 5_000_000 });
}

#[test]
fn suite_fails_when_a_check_failed() {
    let mut tally = SuiteTally::new();
    assert_eq!(tally.verdict(), Ok(()));
    for passed in [true, true, false, true, false, true] {
        tally.record(passed);
    }
    assert_eq!(tally.passed(), 4);
    assert_eq!(tally.failed(), 2);
    assert_eq!(tally.verdict(), Err(SuiteFailed { failed: 2 }));
    assert_eq!(SuiteFailed { failed: 2 }.message(), "2 test(s) failed");
}
