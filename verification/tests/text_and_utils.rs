use evm_client::config::Config;
use evm_client::textfmt::{dec_string, hex_prefixed};
use evm_client::utils::{clean_lines, get_timestamp_utc_now, random_in_range, trim_bytes};

#[test]
fn hex_spells_two_lowercase_characters_a_byte() {
    assert_eq!(hex_prefixed(&vec![]), "0x");
    assert_eq!(hex_prefixed(&vec![0x00, 0x0f, 0xa0, 0xff]), "0x000fa0ff");
}

#[test]
fn decimals_spell_the_number() {
    assert_eq!(dec_string(0), "0");
    assert_eq!(dec_string(7), "7");
    assert_eq!(dec_string(1234567890), "1234567890");
    assert_eq!(dec_string(u64::MAX), "18446744073709551615");
}

#[test]
fn lines_are_trimmed_and_empties_dropped() {
    assert_eq!(trim_bytes(&b"  hello \r\n".to_vec()), b"hello".to_vec());
    assert_eq!(trim_bytes(&b"\t\t".to_vec()), Vec::<u8>::new());
    let lines: Vec<Vec<u8>> = vec![
        b" key-one \r".to_vec(),
        b"".to_vec(),
        b"   ".to_vec(),
        b"key-two".to_vec(),
    ];
    let cleaned = clean_lines(&lines);
    assert_eq!(cleaned, vec![b"key-one".to_vec(), b"key-two".to_vec()]);
}

#[test]
fn the_random_pause_stays_in_the_range_either_way_round() {
    for _ in 0..50 {
        let r = random_in_range([3, 9]);
        assert!((3..=9).contains(&r));
        let r = random_in_range([9, 3]);
        assert!((3..=9).contains(&r));
        let r = random_in_range([5, 5]);
        assert_eq!(r, 5);
    }
}

#[test]
fn the_clock_reads_after_the_epoch() {
    let t = get_timestamp_utc_now().unwrap();
    assert!(t > 1_600_000_000);
}

#[test]
fn the_config_keeps_what_it_is_given() {
    let c = Config::new("https://rpc.example".to_string(), [3, 9], true);
    assert_eq!(c.bsc_rpc, "https://rpc.example");
    assert_eq!(c.sleep_range, [3, 9]);
    assert!(c.use_proxy);
}
