//! Forecast codes of the weather provider: the icon and the wording that the
//! widget shows for each of them.

use crate::text::{digit_char, digit_value, is_digit, lemma_digit_char};
use vstd::prelude::*;

verus! {

/// The three characters that write a number below one thousand.
pub open spec fn code_text(n: int) -> Seq<char> {
    seq![digit_char(n / 100), digit_char((n / 10) % 10), digit_char(n % 10)]
}

/// The number that three decimal digits write; `None` for any other text.
pub open spec fn code_number(code: Seq<char>) -> Option<int> {
    if code.len() == 3 && is_digit(code[0]) && is_digit(code[1]) && is_digit(code[2]) {
        Some(100 * digit_value(code[0]) + 10 * digit_value(code[1]) + digit_value(code[2]))
    } else {
        None
    }
}

/// Codes shown with the clear-sky icon.
pub open spec fn clear_codes() -> Set<Seq<char>> {
    set!["100"@, "123"@, "124"@, "130"@, "131"@]
}

/// Codes shown with the few-clouds icon.
pub open spec fn few_clouds_codes() -> Set<Seq<char>> {
    set!["101"@, "132"@, "140"@, "160"@, "170"@]
}

/// Codes shown with the scattered-clouds icon.
pub open spec fn scattered_clouds_codes() -> Set<Seq<char>> {
    set!["102"@, "104"@, "115"@, "116"@, "141"@, "142"@]
}

/// Codes shown with the broken-clouds icon.
pub open spec fn broken_clouds_codes() -> Set<Seq<char>> {
    set!["103"@, "106"@, "107"@, "108"@, "128"@, "143"@, "150"@]
}

/// Codes shown with the shower icon.
pub open spec fn shower_codes() -> Set<Seq<char>> {
    set![
        "110"@, "111"@, "112"@, "113"@, "114"@, "118"@, "119"@, "125"@, "126"@, "127"@, "153"@,
        "154"@, "155"@, "181"@,
    ]
}

/// Codes shown with the thunderstorm icon.
pub open spec fn thunder_codes() -> Set<Seq<char>> {
    set!["117"@, "181"@]
}

/// Codes shown with the snow icon.
pub open spec fn snow_codes() -> Set<Seq<char>> {
    set!["120"@, "121"@, "122"@, "156"@, "157"@, "160"@]
}

/// Whether any icon bucket lists the code.
pub open spec fn is_listed(code: Seq<char>) -> bool {
    clear_codes().contains(code) || few_clouds_codes().contains(code)
        || scattered_clouds_codes().contains(code) || broken_clouds_codes().contains(code)
        || shower_codes().contains(code) || thunder_codes().contains(code)
        || snow_codes().contains(code)
}

/// The icon of a code: that of the first bucket, in the order above, that lists
/// it, and the mist icon for a code that none lists.
pub open spec fn icon_of(code: Seq<char>) -> Seq<char> {
    if clear_codes().contains(code) {
        "01d"@
    } else if few_clouds_codes().contains(code) {
        "02d"@
    } else if scattered_clouds_codes().contains(code) {
        "03d"@
    } else if broken_clouds_codes().contains(code) {
        "04d"@
    } else if shower_codes().contains(code) {
        "09d"@
    } else if thunder_codes().contains(code) {
        "11d"@
    } else if snow_codes().contains(code) {
        "13d"@
    } else {
        "50d"@
    }
}

/// Reads a code as a number: three decimal digits, nothing else.
pub fn parse_code(code: &str) -> (r: Option<u16>)
    ensures
        match r {
            Some(n) => code_number(code@) == Some(n as int) && n < 1000 && code@ == code_text(
                n as int,
            ),
            None => code_number(code@).is_none(),
        },
{
    if code.unicode_len() != 3 {
        return None;
    }
    let c0 = code.get_char(0);
    let c1 = code.get_char(1);
    let c2 = code.get_char(2);
    if '0' <= c0 && c0 <= '9' && '0' <= c1 && c1 <= '9' && '0' <= c2 && c2 <= '9' {
        let d0: u16 = (c0 as u32 - '0' as u32) as u16;
        let d1: u16 = (c1 as u32 - '0' as u32) as u16;
        let d2: u16 = (c2 as u32 - '0' as u32) as u16;
        assert(code@ =~= code_text(100 * d0 + 10 * d1 + d2));
        Some(100 * d0 + 10 * d1 + d2)
    } else {
        None
    }
}

/// Every three-digit text is read back as the number it writes.
pub proof fn lemma_code_text_number()
    ensures
        forall|n: int| 0 <= n < 1000 ==> code_number(#[trigger] code_text(n)) == Some(n),
{
    assert forall|n: int| 0 <= n < 1000 implies code_number(#[trigger] code_text(n)) == Some(
        n,
    ) by {
        let a = n / 100;
        let b = (n / 10) % 10;
        let c = n % 10;
        assert(0 <= a <= 9 && 0 <= b <= 9 && 0 <= c <= 9 && n == 100 * a + 10 * b + c);
        lemma_digit_char(a);
        lemma_digit_char(b);
        lemma_digit_char(c);
        let s = code_text(n);
        assert(s.len() == 3 && s[0] == digit_char(a) && s[1] == digit_char(b) && s[2]
            == digit_char(c));
    }
}

/// The codes that the tables name, each as the number it writes.
pub proof fn lemma_code_literals()
    ensures
        "100"@ == code_text(100),
        "101"@ == code_text(101),
        "102"@ == code_text(102),
        "103"@ == code_text(103),
        "104"@ == code_text(104),
        "105"@ == code_text(105),
        "106"@ == code_text(106),
        "107"@ == code_text(107),
        "108"@ == code_text(108),
        "110"@ == code_text(110),
        "111"@ == code_text(111),
        "112"@ == code_text(112),
        "113"@ == code_text(113),
        "114"@ == code_text(114),
        "115"@ == code_text(115),
        "116"@ == code_text(116),
        "117"@ == code_text(117),
        "118"@ == code_text(118),
        "119"@ == code_text(119),
        "120"@ == code_text(120),
        "121"@ == code_text(121),
        "122"@ == code_text(122),
        "123"@ == code_text(123),
        "124"@ == code_text(124),
        "125"@ == code_text(125),
        "126"@ == code_text(126),
        "127"@ == code_text(127),
        "128"@ == code_text(128),
        "130"@ == code_text(130),
        "131"@ == code_text(131),
        "132"@ == code_text(132),
        "140"@ == code_text(140),
        "141"@ == code_text(141),
        "142"@ == code_text(142),
        "143"@ == code_text(143),
        "150"@ == code_text(150),
        "153"@ == code_text(153),
        "154"@ == code_text(154),
        "155"@ == code_text(155),
        "156"@ == code_text(156),
        "157"@ == code_text(157),
        "160"@ == code_text(160),
        "170"@ == code_text(170),
        "181"@ == code_text(181),
{
    reveal_strlit("100");
    reveal_strlit("101");
    reveal_strlit("102");
    reveal_strlit("103");
    reveal_strlit("104");
    reveal_strlit("105");
    reveal_strlit("106");
    reveal_strlit("107");
    reveal_strlit("108");
    reveal_strlit("110");
    reveal_strlit("111");
    reveal_strlit("112");
    reveal_strlit("113");
    reveal_strlit("114");
    reveal_strlit("115");
    reveal_strlit("116");
    reveal_strlit("117");
    reveal_strlit("118");
    reveal_strlit("119");
    reveal_strlit("120");
    reveal_strlit("121");
    reveal_strlit("122");
    reveal_strlit("123");
    reveal_strlit("124");
    reveal_strlit("125");
    reveal_strlit("126");
    reveal_strlit("127");
    reveal_strlit("128");
    reveal_strlit("130");
    reveal_strlit("131");
    reveal_strlit("132");
    reveal_strlit("140");
    reveal_strlit("141");
    reveal_strlit("142");
    reveal_strlit("143");
    reveal_strlit("150");
    reveal_strlit("153");
    reveal_strlit("154");
    reveal_strlit("155");
    reveal_strlit("156");
    reveal_strlit("157");
    reveal_strlit("160");
    reveal_strlit("170");
    reveal_strlit("181");
    assert("100"@ =~= code_text(100));
    assert("101"@ =~= code_text(101));
    assert("102"@ =~= code_text(102));
    assert("103"@ =~= code_text(103));
    assert("104"@ =~= code_text(104));
    assert("105"@ =~= code_text(105));
    assert("106"@ =~= code_text(106));
    assert("107"@ =~= code_text(107));
    assert("108"@ =~= code_text(108));
    assert("110"@ =~= code_text(110));
    assert("111"@ =~= code_text(111));
    assert("112"@ =~= code_text(112));
    assert("113"@ =~= code_text(113));
    assert("114"@ =~= code_text(114));
    assert("115"@ =~= code_text(115));
    assert("116"@ =~= code_text(116));
    assert("117"@ =~= code_text(117));
    assert("118"@ =~= code_text(118));
    assert("119"@ =~= code_text(119));
    assert("120"@ =~= code_text(120));
    assert("121"@ =~= code_text(121));
    assert("122"@ =~= code_text(122));
    assert("123"@ =~= code_text(123));
    assert("124"@ =~= code_text(124));
    assert("125"@ =~= code_text(125));
    assert("126"@ =~= code_text(126));
    assert("127"@ =~= code_text(127));
    assert("128"@ =~= code_text(128));
    assert("130"@ =~= code_text(130));
    assert("131"@ =~= code_text(131));
    assert("132"@ =~= code_text(132));
    assert("140"@ =~= code_text(140));
    assert("141"@ =~= code_text(141));
    assert("142"@ =~= code_text(142));
    assert("143"@ =~= code_text(143));
    assert("150"@ =~= code_text(150));
    assert("153"@ =~= code_text(153));
    assert("154"@ =~= code_text(154));
    assert("155"@ =~= code_text(155));
    assert("156"@ =~= code_text(156));
    assert("157"@ =~= code_text(157));
    assert("160"@ =~= code_text(160));
    assert("170"@ =~= code_text(170));
    assert("181"@ =~= code_text(181));
}

/// The icon shown for a forecast code.
pub fn icon_for_code(code: &str) -> (r: &'static str)
    ensures
        r@ == icon_of(code@),
{
    proof {
        lemma_code_literals();
        lemma_code_text_number();
    }
    match parse_code(code) {
        None => "50d",
        Some(n) => {
            if n == 100 || n == 123 || n == 124 || n == 130 || n == 131 {
                "01d"
            } else if n == 101 || n == 132 || n == 140 || n == 160 || n == 170 {
                "02d"
            } else if n == 102 || n == 104 || n == 115 || n == 116 || n == 141 || n == 142 {
                "03d"
            } else if n == 103 || n == 106 || n == 107 || n == 108 || n == 128 || n == 143 || n
                == 150 {
                "04d"
            } else if n == 110 || n == 111 || n == 112 || n == 113 || n == 114 || n == 118 || n
                == 119 || n == 125 || n == 126 || n == 127 || n == 153 || n == 154 || n == 155
                || n == 181 {
                "09d"
            } else if n == 117 {
                "11d"
            } else if n == 120 || n == 121 || n == 122 || n == 156 || n == 157 {
                "13d"
            } else {
                "50d"
            }
        },
    }
}

/// The wording for a forecast code, and the word for unknown where the
/// provider's list has no such code.
pub open spec fn description_of(code: Seq<char>) -> Seq<char> {
    if code == "100"@ {
        "晴れ"@
    } else if code == "101"@ {
        "晴れ時々曇り"@
    } else if code == "102"@ {
        "晴れ一時雨"@
    } else if code == "103"@ {
        "晴れ時々雨"@
    } else if code == "104"@ {
        "晴れ一時雪"@
    } else if code == "105"@ {
        "晴れ時々雪"@
    } else if code == "106"@ {
        "晴れ一時雨か雪"@
    } else if code == "107"@ {
        "晴れ時々雨か雪"@
    } else if code == "108"@ {
        "晴れ一時雨か雷雨"@
    } else if code == "110"@ {
        "曇り"@
    } else if code == "111"@ {
        "曇り時々晴れ"@
    } else if code == "112"@ {
        "曇り一時雨"@
    } else if code == "113"@ {
        "曇り時々雨"@
    } else if code == "114"@ {
        "曇り一時雪"@
    } else if code == "115"@ {
        "曇り時々雪"@
    } else if code == "116"@ {
        "曇り一時雨か雪"@
    } else if code == "117"@ {
        "曇り時々雨か雪"@
    } else if code == "118"@ {
        "曇り一時雨か雷雨"@
    } else if code == "119"@ {
        "曇り時々雨か雷雨"@
    } else if code == "120"@ {
        "雨"@
    } else if code == "121"@ {
        "雨時々晴れ"@
    } else if code == "122"@ {
        "雨時々曇り"@
    } else if code == "123"@ {
        "雨一時雪"@
    } else if code == "124"@ {
        "雨時々雪"@
    } else if code == "125"@ {
        "雨一時雪か雷雨"@
    } else if code == "126"@ {
        "雨時々雪か雷雨"@
    } else if code == "127"@ {
        "雨か雷雨"@
    } else if code == "130"@ {
        "雪"@
    } else if code == "131"@ {
        "雪時々晴れ"@
    } else if code == "132"@ {
        "雪時々曇り"@
    } else if code == "140"@ {
        "晴れ"@
    } else if code == "141"@ {
        "晴れ時々曇り"@
    } else if code == "142"@ {
        "晴れ一時雨"@
    } else if code == "150"@ {
        "曇り"@
    } else if code == "160"@ {
        "雨"@
    } else if code == "170"@ {
        "雪"@
    } else if code == "181"@ {
        "雷"@
    } else {
        "不明"@
    }
}

/// The wording shown for a forecast code.
pub fn get_weather_description_from_code(code: &str) -> (r: &str)
    ensures
        r@ == description_of(code@),
{
    proof {
        lemma_code_literals();
        lemma_code_text_number();
    }
    match parse_code(code) {
        None => "不明",
        Some(n) => {
            if n == 100 {
                "晴れ"
            } else if n == 101 {
                "晴れ時々曇り"
            } else if n == 102 {
                "晴れ一時雨"
            } else if n == 103 {
                "晴れ時々雨"
            } else if n == 104 {
                "晴れ一時雪"
            } else if n == 105 {
                "晴れ時々雪"
            } else if n == 106 {
                "晴れ一時雨か雪"
            } else if n == 107 {
                "晴れ時々雨か雪"
            } else if n == 108 {
                "晴れ一時雨か雷雨"
            } else if n == 110 {
                "曇り"
            } else if n == 111 {
                "曇り時々晴れ"
            } else if n == 112 {
                "曇り一時雨"
            } else if n == 113 {
                "曇り時々雨"
            } else if n == 114 {
                "曇り一時雪"
            } else if n == 115 {
                "曇り時々雪"
            } else if n == 116 {
                "曇り一時雨か雪"
            } else if n == 117 {
                "曇り時々雨か雪"
            } else if n == 118 {
                "曇り一時雨か雷雨"
            } else if n == 119 {
                "曇り時々雨か雷雨"
            } else if n == 120 {
                "雨"
            } else if n == 121 {
                "雨時々晴れ"
            } else if n == 122 {
                "雨時々曇り"
            } else if n == 123 {
                "雨一時雪"
            } else if n == 124 {
                "雨時々雪"
            } else if n == 125 {
                "雨一時雪か雷雨"
            } else if n == 126 {
                "雨時々雪か雷雨"
            } else if n == 127 {
                "雨か雷雨"
            } else if n == 130 {
                "雪"
            } else if n == 131 {
                "雪時々晴れ"
            } else if n == 132 {
                "雪時々曇り"
            } else if n == 140 {
                "晴れ"
            } else if n == 141 {
                "晴れ時々曇り"
            } else if n == 142 {
                "晴れ一時雨"
            } else if n == 150 {
                "曇り"
            } else if n == 160 {
                "雨"
            } else if n == 170 {
                "雪"
            } else if n == 181 {
                "雷"
            } else {
                "不明"
            }
        },
    }
}

/// Each bucket's codes get that bucket's icon, but for the two codes that an
/// earlier bucket already lists: "181" keeps the shower icon and "160" the
/// few-clouds icon. A code that no bucket lists gets the mist icon.
pub proof fn lemma_icon_table(code: Seq<char>)
    ensures
        clear_codes().contains(code) ==> icon_of(code) == "01d"@,
        few_clouds_codes().contains(code) ==> icon_of(code) == "02d"@,
        scattered_clouds_codes().contains(code) ==> icon_of(code) == "03d"@,
        broken_clouds_codes().contains(code) ==> icon_of(code) == "04d"@,
        shower_codes().contains(code) ==> icon_of(code) == "09d"@,
        thunder_codes().contains(code) ==> icon_of(code) == if code == "181"@ {
            "09d"@
        } else {
            "11d"@
        },
        snow_codes().contains(code) ==> icon_of(code) == if code == "160"@ {
            "02d"@
        } else {
            "13d"@
        },
        !is_listed(code) ==> icon_of(code) == "50d"@,
{
    lemma_code_literals();
    lemma_code_text_number();
}

/// Every code has one of the eight icons.
pub proof fn lemma_icon_is_known(code: Seq<char>)
    ensures
        icon_of(code) == "01d"@ || icon_of(code) == "02d"@ || icon_of(code) == "03d"@ || icon_of(
            code,
        ) == "04d"@ || icon_of(code) == "09d"@ || icon_of(code) == "11d"@ || icon_of(code)
            == "13d"@ || icon_of(code) == "50d"@,
{
}

} // verus!
