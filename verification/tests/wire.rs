use dispatcher::segments::Segments;
use dispatcher::wire::{encode, parse, WireError};

#[test]
fn wire_form_is_compact_json() {
    let s = Segments::new(vec![(0, 1500000), (1800000, 3000000)]);
    assert_eq!(encode(&s), b"[[0,1500000],[1800000,3000000]]".to_vec());
    assert_eq!(encode(&Segments::empty()), b"[]".to_vec());
    assert_eq!(encode(&Segments::new(vec![(-12, 7)])), b"[[-12,7]]".to_vec());
}

#[test]
fn wire_form_round_trip() {
    let sets = vec![
        Segments::empty(),
        Segments::new(vec![(0, 0)]),
        Segments::new(vec![(0, 1500000), (1800000, 3000000)]),
        Segments::new(vec![(i64::MIN, i64::MAX), (-1, 1), (10, 9)]),
        Segments::new(vec![(9, 10), (99, 100), (999, 1000), (-10, -9)]),
    ];
    for s in sets {
        assert_eq!(parse(&encode(&s)), Ok(s));
    }
}

#[test]
fn wire_form_agrees_with_a_json_reader() {
    let s = Segments::new(vec![(i64::MIN, i64::MAX), (-1, 1), (0, 1500000)]);
    let text = encode(&s);
    let value: Vec<(i64, i64)> = serde_json::from_slice(&text).expect("valid JSON");
    assert_eq!(value, s.to_vec());
    assert_eq!(serde_json::to_vec(&s.to_vec()).expect("serializable"), text);
}

#[test]
fn malformed_wire_forms_are_rejected() {
    let bad: Vec<&[u8]> = vec![
        b"",
        b"[",
        b"]",
        b"[[]]",
        b"[[1]]",
        b"[[1,2,3]]",
        b"[[1,2]",
        b"[[1,2]]]",
        b"[[1,2],]",
        b"[,[1,2]]",
        b"[[1,2] ,[3,4]]",
        b" [[1,2]]",
        b"[[01,2]]",
        b"[[-0,2]]",
        b"[[+1,2]]",
        b"[[1,-]]",
        b"[[1,2]][[3,4]]",
        b"[[9223372036854775808,0]]",
        b"[[-9223372036854775809,0]]",
        b"[[99999999999999999999999999999999999999999999,0]]",
        b"[[1,2]]\n",
        b"[[1.0,2]]",
        b"[[a,b]]",
    ];
    for text in bad {
        assert_eq!(parse(text), Err(WireError::Malformed), "{:?}", String::from_utf8_lossy(text));
    }
}
