use lyra::color::{hex_to_rgb, rgb_to_hex};
use lyra::sequence::{chunked_range, multi_interleave, NestedTranspose};
use lyra::text::{
    prettify_code_names, prettify_names, OptionMap, PrettyJoin, PrettyJoiner, PrettyTruncator,
    ViaGrapheme,
};

#[test]
fn string_or() {
    for (input, expected) in [("0", "0"), ("", "1")] {
        assert_eq!(input.or("1"), expected);
    }
}

#[test]
fn string_or_else() {
    for (input, expected) in [("2", "2"), ("", "3")] {
        assert_eq!(input.or_else(|| "3".into()), expected);
    }
}

#[test]
fn string_pretty_join() {
    let cases: Vec<(Vec<&str>, &str)> = vec![
        (vec![], ""),
        (vec!["0"], "0"),
        (vec!["1", "2"], "1 > 2"),
        (vec!["3", "4", "5"], "3 + 4 > 5"),
        (vec!["6", "7", "8", "9"], "6 + 7 + 8 > 9"),
    ];
    for (input, expected) in cases {
        assert_eq!(input[..].pretty_join(" + ", " > "), expected);
    }
}

#[test]
fn string_pretty_join_with_and() {
    let cases: Vec<(Vec<&str>, &str)> = vec![
        (vec![], ""),
        (vec!["a"], "a"),
        (vec!["b", "c"], "b and c"),
        (vec!["d", "e", "f"], "d, e and f"),
        (vec!["g", "h", "i", "j"], "g, h, i and j"),
    ];
    for (input, expected) in cases {
        assert_eq!(input[..].pretty_join_with_and(), expected);
    }
}

#[test]
fn string_pretty_join_with_or() {
    let cases: Vec<(Vec<&str>, &str)> = vec![
        (vec![], ""),
        (vec!["k"], "k"),
        (vec!["l", "m"], "l or m"),
        (vec!["n", "o", "p"], "n, o or p"),
        (vec!["q", "r", "s", "t"], "q, r, s or t"),
    ];
    for (input, expected) in cases {
        assert_eq!(input[..].pretty_join_with_or(), expected);
    }
}

#[test]
fn string_pretty_join_with_custom_last() {
    let input = ["x", "y", "z"];
    assert_eq!(input[..].pretty_join_with(" & "), "x, y & z");
}

#[test]
fn owned_strings_pretty_join() {
    let input = vec![String::from("u"), String::from("v"), String::from("w")];
    assert_eq!(<[String] as PrettyJoin>::pretty_join(&input, "; ", " / "), "u; v / w");
}

#[test]
fn string_pretty_truncate() {
    let cases = [
        ("", ""),
        ("1", "1"),
        ("234", "234"),
        ("5678", "56…"),
        ("竪琴を弾く", "竪琴…"),
        ("การเขียนโปรแกรม", "กา…"),
        ("😶‍🌫️😮‍💨😵‍💫❤️‍🔥❤️‍🩹👁️‍🗨️", "😶‍🌫️😮‍💨…"),
    ];
    for (input, expected) in cases {
        assert_eq!(input.pretty_truncate(3), expected);
    }
}

#[test]
fn grapheme_len_counts_clusters() {
    assert_eq!("".grapheme_len(), 0);
    assert_eq!("a\r\nb🇷🇺🇸🇹".grapheme_len(), 5);
    assert_eq!("😶‍🌫️😮‍💨".grapheme_len(), 2);
}

#[test]
fn grapheme_truncate_keeps_whole_clusters() {
    assert_eq!("a\r\nb🇷🇺🇸🇹".grapheme_truncate(4), "a\r\nb🇷🇺");
    assert_eq!("abc".grapheme_truncate(3), "abc");
    assert_eq!("abc".grapheme_truncate(0), "");
}

#[test]
fn flags_prettify() {
    let cases: Vec<(Vec<&str>, &str)> = vec![
        (vec![], ""),
        (vec!["ONE"], "One"),
        (vec!["ANOTHER_ONE"], "Another One"),
        (vec!["EVEN_ANOTHER_ONE"], "Even Another One"),
        (vec!["ONE", "ANOTHER_ONE"], "One and Another One"),
        (vec!["ANOTHER_ONE", "EVEN_ANOTHER_ONE"], "Another One and Even Another One"),
        (vec!["ONE", "EVEN_ANOTHER_ONE"], "One and Even Another One"),
        (vec!["ONE", "ANOTHER_ONE", "EVEN_ANOTHER_ONE"], "One, Another One and Even Another One"),
    ];
    for (input, expected) in cases {
        assert_eq!(prettify_names(&input), expected);
    }
}

#[test]
fn flags_prettify_code() {
    let cases: Vec<(Vec<&str>, &str)> = vec![
        (vec![], ""),
        (vec!["TWO"], "`Two`"),
        (vec!["OTHER_TWO"], "`Other Two`"),
        (vec!["OTHER_TWO_ELSE"], "`Other Two Else`"),
        (vec!["TWO", "OTHER_TWO"], "`Two` and `Other Two`"),
        (vec!["OTHER_TWO", "OTHER_TWO_ELSE"], "`Other Two` and `Other Two Else`"),
        (vec!["TWO", "OTHER_TWO_ELSE"], "`Two` and `Other Two Else`"),
        (vec!["TWO", "OTHER_TWO", "OTHER_TWO_ELSE"], "`Two`, `Other Two` and `Other Two Else`"),
    ];
    for (input, expected) in cases {
        assert_eq!(prettify_code_names(&input), expected);
    }
}

fn interleave_all(input: Vec<Vec<u8>>) -> Vec<u8> {
    multi_interleave(input).collect_remaining()
}

#[test]
fn multi_interleave_cases() {
    let lists: [Vec<u8>; 4] = [vec![], vec![1], vec![1, 2], vec![1, 2, 3]];
    assert_eq!(interleave_all(vec![]), Vec::<u8>::new());
    // One list: the list itself.
    for a in &lists {
        assert_eq!(interleave_all(vec![a.clone()]), a.clone());
    }
    // Two and three lists: compared with the expectations written out below.
    let two: [([usize; 2], Vec<u8>); 16] = [
        ([0, 0], vec![]),
        ([1, 0], vec![1]),
        ([2, 0], vec![1, 2]),
        ([3, 0], vec![1, 2, 3]),
        ([0, 1], vec![1]),
        ([1, 1], vec![1, 1]),
        ([2, 1], vec![1, 1, 2]),
        ([3, 1], vec![1, 1, 2, 3]),
        ([0, 2], vec![1, 2]),
        ([1, 2], vec![1, 1, 2]),
        ([2, 2], vec![1, 1, 2, 2]),
        ([3, 2], vec![1, 1, 2, 2, 3]),
        ([0, 3], vec![1, 2, 3]),
        ([1, 3], vec![1, 1, 2, 3]),
        ([2, 3], vec![1, 1, 2, 2, 3]),
        ([3, 3], vec![1, 1, 2, 2, 3, 3]),
    ];
    for (idx, expected) in two {
        let input = vec![lists[idx[0]].clone(), lists[idx[1]].clone()];
        assert_eq!(interleave_all(input), expected);
    }
    let three: [([usize; 3], Vec<u8>); 12] = [
        ([0, 0, 0], vec![]),
        ([1, 0, 0], vec![1]),
        ([3, 2, 0], vec![1, 1, 2, 2, 3]),
        ([0, 0, 1], vec![1]),
        ([1, 0, 1], vec![1, 1]),
        ([1, 1, 1], vec![1, 1, 1]),
        ([2, 1, 1], vec![1, 1, 1, 2]),
        ([3, 1, 2], vec![1, 1, 1, 2, 2, 3]),
        ([0, 3, 2], vec![1, 1, 2, 2, 3]),
        ([2, 3, 2], vec![1, 1, 1, 2, 2, 2, 3]),
        ([3, 0, 3], vec![1, 1, 2, 2, 3, 3]),
        ([3, 3, 3], vec![1, 1, 1, 2, 2, 2, 3, 3, 3]),
    ];
    for (idx, expected) in three {
        let input = vec![lists[idx[0]].clone(), lists[idx[1]].clone(), lists[idx[2]].clone()];
        assert_eq!(interleave_all(input), expected);
    }
}

#[test]
fn multi_interleave_hands_out_one_at_a_time() {
    let mut merge = multi_interleave(vec![vec![1u8, 2, 3], vec![7, 8]]);
    assert_eq!(merge.next(), Some(1));
    assert_eq!(merge.next(), Some(7));
    assert_eq!(merge.collect_remaining(), vec![2, 8, 3]);
    assert_eq!(merge.next(), None);
}

#[test]
fn chunked_range_cases() {
    let cases: Vec<(usize, Vec<usize>, Vec<Vec<usize>>)> = vec![
        (0, vec![], vec![]),
        (1, vec![], vec![]),
        (0, vec![0], vec![vec![]]),
        (1, vec![0], vec![vec![]]),
        (0, vec![1], vec![vec![0]]),
        (1, vec![1], vec![vec![1]]),
        (0, vec![3], vec![vec![0, 1, 2]]),
        (1, vec![3], vec![vec![1, 2, 3]]),
        (0, vec![0, 0], vec![vec![], vec![]]),
        (1, vec![0, 2], vec![vec![], vec![1, 2]]),
        (0, vec![1, 1], vec![vec![0], vec![1]]),
        (1, vec![1, 3], vec![vec![1], vec![2, 3, 4]]),
        (0, vec![2, 3], vec![vec![0, 1], vec![2, 3, 4]]),
        (1, vec![3, 0], vec![vec![1, 2, 3], vec![]]),
        (0, vec![0, 1, 0], vec![vec![], vec![0], vec![]]),
        (0, vec![3, 2, 3], vec![vec![0, 1, 2], vec![3, 4], vec![5, 6, 7]]),
        (1, vec![3, 2, 3], vec![vec![1, 2, 3], vec![4, 5], vec![6, 7, 8]]),
        (1, vec![3, 3, 3], vec![vec![1, 2, 3], vec![4, 5, 6], vec![7, 8, 9]]),
    ];
    for (start, sizes, expected) in cases {
        let got: Vec<Vec<usize>> =
            chunked_range(start, sizes).into_iter().map(|r| r.collect()).collect();
        assert_eq!(got, expected);
    }
}

#[test]
fn nested_transpose() {
    let cases: [(Result<Result<(), ()>, ()>, Result<Result<(), ()>, ()>); 3] =
        [(Ok(Ok(())), Ok(Ok(()))), (Ok(Err(())), Err(())), (Err(()), Ok(Err(())))];
    for (input, expected) in cases {
        assert_eq!(input.transpose(), expected);
    }
}

#[test]
fn nested_transpose_twice_is_identity() {
    let v: Result<Result<u8, &str>, bool> = Ok(Err("inner"));
    assert_eq!(v.transpose().transpose(), v);
}

const COLORS: [([u8; 3], u32); 10] = [
    ([0, 0, 0], 0x00_00_00),
    ([255, 0, 0], 0xFF_00_00),
    ([0, 255, 0], 0x00_FF_00),
    ([255, 255, 0], 0xFF_FF_00),
    ([0, 0, 255], 0x00_00_FF),
    ([255, 0, 255], 0xFF_00_FF),
    ([0, 255, 255], 0x00_FF_FF),
    ([255, 255, 255], 0xFF_FF_FF),
    ([123, 45, 67], 0x7B_2D_43),
    ([89, 101, 112], 0x59_65_70),
];

#[test]
fn rgb_to_hex_cases() {
    for (rgb, hex) in COLORS {
        assert_eq!(rgb_to_hex(rgb), hex);
    }
}

#[test]
fn hex_to_rgb_cases() {
    for (rgb, hex) in COLORS {
        assert_eq!(hex_to_rgb(hex), rgb);
    }
}

#[test]
fn rgb_to_hex_to_rgb() {
    for (rgb, _) in COLORS {
        assert_eq!(hex_to_rgb(rgb_to_hex(rgb)), rgb);
    }
}

#[test]
fn hex_to_rgb_to_hex() {
    for (_, hex) in COLORS {
        assert_eq!(rgb_to_hex(hex_to_rgb(hex)), hex);
    }
}

#[test]
fn hex_to_rgb_ignores_high_byte() {
    assert_eq!(hex_to_rgb(0xAB_12_34_56), [0x12, 0x34, 0x56]);
}
