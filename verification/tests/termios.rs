use qol_cli::termios::{
    apply_cooked_flags, cooked_bits, cooked_bits_of, parse_termios, serialize_termios, ModeFlags, TermiosFlags,
};

const FLAG_MAX: u64 = libc::tcflag_t::MAX as u64;

#[test]
fn termios_env_round_trips_the_four_flag_words() {
    let termios = TermiosFlags {
        iflag: (libc::IXON | libc::ICRNL | 0x8000) as u64,
        oflag: (libc::OPOST | 0x1000) as u64,
        cflag: 0x1234,
        lflag: (libc::ICANON | libc::ECHO | libc::ISIG) as u64,
    };

    let parsed = parse_termios(&serialize_termios(&termios), FLAG_MAX).unwrap();

    assert_eq!(parsed.iflag, termios.iflag);
    assert_eq!(parsed.oflag, termios.oflag);
    assert_eq!(parsed.cflag, termios.cflag);
    assert_eq!(parsed.lflag, termios.lflag);
}

#[test]
fn termios_parse_rejects_malformed_env_values() {
    let cases = ["", "1,2", "1,2,3", "1,2,3,4,5", "a,b,c,d", "1,2,3,x"];
    for raw in cases {
        assert!(parse_termios(raw, FLAG_MAX).is_none(), "input: {raw:?}");
    }
}

#[test]
fn termios_parse_bounds_each_word_by_the_flag_width() {
    assert_eq!(
        parse_termios("+1,2,3,4", 4),
        Some(TermiosFlags { iflag: 1, oflag: 2, cflag: 3, lflag: 4 })
    );
    assert_eq!(parse_termios("1,2,3,5", 4), None);
    assert_eq!(serialize_termios(&TermiosFlags { iflag: 10, oflag: 0, cflag: 7, lflag: 1 }), "10,0,7,1");
}

#[test]
fn cooked_fallback_sets_the_standard_mode_bits() {
    let termios = TermiosFlags { iflag: 0, oflag: 0, cflag: 0, lflag: 0 };

    let cooked = apply_cooked_flags(termios, cooked_bits());

    let local = (libc::ICANON | libc::ECHO | libc::ISIG) as u64;
    let input = (libc::IXON | libc::ICRNL) as u64;
    let output = libc::OPOST as u64;
    assert_eq!(cooked.lflag & local, local, "canonical mode, echo, and signals must be restored");
    assert_eq!(cooked.iflag & input, input, "flow control and CR-to-NL translation must be restored");
    assert_eq!(cooked.oflag & output, output, "output processing must be restored");
}

#[test]
fn cooked_bits_group_each_flag_into_its_word() {
    let f = ModeFlags { icanon: 0x2, echo: 0x8, isig: 0x1, ixon: 0x400, icrnl: 0x100, opost: 0x1 };
    let bits = cooked_bits_of(f);
    assert_eq!(bits.lflag, 0xb);
    assert_eq!(bits.iflag, 0x500);
    assert_eq!(bits.oflag, 0x1);
    let platform = cooked_bits();
    assert_eq!(platform.lflag, (libc::ICANON | libc::ECHO | libc::ISIG) as u64);
    assert_eq!(platform.iflag, (libc::IXON | libc::ICRNL) as u64);
    assert_eq!(platform.oflag, libc::OPOST as u64);
}
