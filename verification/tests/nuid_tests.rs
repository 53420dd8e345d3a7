use std::collections::HashSet;

use nuid::alphabet::{alphabet, BASE};
use nuid::{MAX_INC, MAX_SEQ, MIN_INC, NUID, PRE_LEN, TOTAL_LEN};

#[test]
fn alphabet_size() {
    assert_eq!(alphabet().len(), BASE);
}

#[test]
fn alphabet_contents() {
    let expected = b"0123456789ABCDEFGHIJKLMNOPQRSTUVWXYZabcdefghijklmnopqrstuvwxyz".to_vec();
    assert_eq!(alphabet(), expected);
}

#[test]
fn global_nuid_init() {
    let n = NUID::new();
    assert_eq!(n.pre.len(), PRE_LEN);
    assert_ne!(n.seq, 0);
}

#[test]
fn nuid_rollover() {
    let mut n = NUID::new();
    n.seq = MAX_SEQ;
    let old = n.pre.to_vec();
    n.next();
    assert_ne!(n.pre.to_vec(), old);

    let mut n = NUID::new();
    n.seq = 1;
    let old = n.pre.to_vec();
    n.next();
    assert_eq!(n.pre.to_vec(), old);
}

#[test]
fn nuid_len() {
    let mut n = NUID::new();
    let id = n.next();
    assert_eq!(id.as_str().len(), TOTAL_LEN);
}

#[test]
fn proper_prefix() {
    let mut min: u8 = 255;
    let mut max: u8 = 0;

    for nn in alphabet().iter() {
        let n = *nn;
        if n < min {
            min = n;
        }
        if n > max {
            max = n;
        }
    }

    for _ in 0..100_000 {
        let nuid = NUID::new();
        for j in 0..PRE_LEN {
            assert!(nuid.pre[j] >= min || nuid.pre[j] <= max);
        }
    }
}

#[test]
fn unique() {
    let mut n = NUID::new();
    let mut set = HashSet::new();
    for _ in 0..10_000_000 {
        assert!(set.insert(n.next().to_text()));
    }
}

#[test]
fn first_call_reseeds() {
    let mut n = NUID::new();
    assert_eq!(n.pre, [0u8; 12]);
    assert_eq!(n.seq, MAX_SEQ);
    assert_eq!(n.inc, 0);
    n.next();
    assert_ne!(n.pre, [0u8; 12]);
    let symbols = alphabet();
    for b in n.pre.iter() {
        assert!(symbols.contains(b));
    }
}

#[test]
fn forced_rollover_redraws_counter_and_step() {
    let mut n = NUID::new();
    n.seq = MAX_SEQ;
    n.next();
    assert!(n.seq < MAX_SEQ);
    assert!(MIN_INC <= n.inc && n.inc < MAX_INC);
    let symbols = alphabet();
    for b in n.pre.iter() {
        assert!(symbols.contains(b));
    }
}

#[test]
fn every_identifier_is_printable_base62() {
    let symbols = alphabet();
    let mut n = NUID::new();
    for _ in 0..1_000 {
        let id = n.next();
        let bytes = id.into_bytes();
        assert_eq!(bytes.len(), TOTAL_LEN);
        for b in bytes.iter() {
            assert!(symbols.contains(b));
        }
    }
}

#[test]
fn encodes_zero_as_all_zero_digits() {
    let mut n = NUID::new();
    n.seq = 0;
    let id = n.next();
    assert_eq!(&id.as_str()[PRE_LEN..], "0000000000");
    let bytes = id.into_bytes();
    assert_eq!(&bytes[PRE_LEN..], b"0000000000");
}

#[test]
fn encodes_sixty_one_with_last_symbol() {
    let mut n = NUID::new();
    n.seq = 61;
    let id = n.next();
    let bytes = id.into_bytes();
    assert_eq!(&bytes[PRE_LEN..], b"000000000z");
}

#[test]
fn counter_steps_by_increment_between_calls() {
    let mut n = NUID::new();
    n.next();
    let seq_before = n.seq;
    let inc = n.inc;
    if seq_before + inc < MAX_SEQ {
        let pre_before = n.pre;
        n.next();
        assert_eq!(n.seq, seq_before + inc);
        assert_eq!(n.inc, inc);
        assert_eq!(n.pre, pre_before);
    }
}

#[test]
fn text_views_agree_with_bytes() {
    let mut n = NUID::new();
    let id = n.next();
    let text = id.to_text();
    assert_eq!(text, id.as_str());
    assert_eq!(text.as_bytes(), &id.into_bytes()[..]);
}
