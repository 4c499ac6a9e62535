//! Clearing the cache: every entry's outcome is collected first, and the
//! report counts the entries whose size could be read and the bytes they
//! held. Entries whose size could not be read, and deletions that fail, are
//! passed over without stopping the clean-up.

use vstd::prelude::*;
use vstd::arithmetic::div_mod::lemma_fundamental_div_mod_converse;

verus! {

/// Bytes in a mebibyte.
pub const MEBIBYTE: u128 = 1048576;

/// How many entries were counted and how many bytes they held.
#[derive(Debug, Clone, Copy, PartialEq, Eq)]
pub struct CleanupSummary {
    pub count: usize,
    pub total_bytes: u128,
}

/// How many entries had a size that could be read.
pub open spec fn entries_counted(sizes: Seq<Option<u64>>) -> nat
    decreases sizes.len(),
{
    if sizes.len() == 0 {
        0
    } else {
        entries_counted(sizes.drop_last()) + if sizes.last() is Some {
            1nat
        } else {
            0nat
        }
    }
}

/// The sum of the sizes that could be read.
pub open spec fn bytes_counted(sizes: Seq<Option<u64>>) -> nat
    decreases sizes.len(),
{
    if sizes.len() == 0 {
        0
    } else {
        bytes_counted(sizes.drop_last()) + match sizes.last() {
            Some(n) => n as nat,
            None => 0nat,
        }
    }
}

/// `x / d` rounded to the nearest integer, a tie going to the even one.
pub open spec fn div_round_half_even(x: nat, d: nat) -> nat
    recommends
        d > 0,
{
    let q = x / d;
    let r = x % d;
    if 2 * r > d || (2 * r == d && q % 2 == 1) {
        q + 1
    } else {
        q
    }
}

/// A byte count in hundredths of a mebibyte, rounded half to even.
pub open spec fn mib_hundredths(bytes: nat) -> nat {
    div_round_half_even(bytes * 100, MEBIBYTE as nat)
}

/// The decimal digit of value `d`.
pub open spec fn digit_char(d: nat) -> char {
    seq!['0', '1', '2', '3', '4', '5', '6', '7', '8', '9'][d as int]
}

/// A natural number in decimal, without leading zeros.
pub open spec fn decimal_of(n: nat) -> Seq<char>
    decreases n,
{
    if n < 10 {
        seq![digit_char(n)]
    } else {
        decimal_of(n / 10) + seq![digit_char(n % 10)]
    }
}

/// A number of hundredths written with two decimals (`1234` is `12.34`).
pub open spec fn two_decimals_of(h: nat) -> Seq<char> {
    decimal_of(h / 100) + "."@ + seq![digit_char((h % 100) / 10), digit_char(h % 10)]
}

/// The report of a clean-up that counted `count` entries holding `bytes`.
pub open spec fn report_of(count: nat, bytes: nat) -> Seq<char> {
    "已清除 "@ + decimal_of(count) + " 个缓存文件，释放 "@ + two_decimals_of(
        mib_hundredths(bytes),
    ) + " MB 空间"@
}

/// The report when there is no cache directory at all.
pub open spec fn missing_report_of() -> Seq<char> {
    "缓存目录不存在，"@ + report_of(0, 0)
}

/// Counts the entries whose size was read (`Some`) and adds up their sizes;
/// the entries whose size could not be read are left out of both.
pub fn summarize(sizes: &Vec<Option<u64>>) -> (r: CleanupSummary)
    ensures
        r.count == entries_counted(sizes@),
        r.total_bytes == bytes_counted(sizes@),
{
    let mut count: usize = 0;
    let mut total: u128 = 0;
    let mut i: usize = 0;
    while i < sizes.len()
        invariant
            i <= sizes@.len(),
            count == entries_counted(sizes@.subrange(0, i as int)),
            total == bytes_counted(sizes@.subrange(0, i as int)),
            count <= i,
            total <= i * 0xffff_ffff_ffff_ffffnat,
        decreases sizes@.len() - i,
    {
        let ghost prefix = sizes@.subrange(0, i + 1);
        assert(prefix.drop_last() =~= sizes@.subrange(0, i as int));
        match sizes[i] {
            Some(n) => {
                assert(total + n <= (i + 1) * 0xffff_ffff_ffff_ffffnat) by (nonlinear_arith)
                    requires
                        total <= i * 0xffff_ffff_ffff_ffffnat,
                        n <= 0xffff_ffff_ffff_ffffnat,
                ;
                assert((i + 1) * 0xffff_ffff_ffff_ffffnat < 0x1_0000_0000_0000_0000_0000_0000_0000_0000nat)
                    by (nonlinear_arith)
                    requires
                        i + 1 <= 0xffff_ffff_ffff_ffffnat,
                ;
                count = count + 1;
                total = total + n as u128;
            },
            None => {
                assert(total <= (i + 1) * 0xffff_ffff_ffff_ffffnat) by (nonlinear_arith)
                    requires
                        total <= i * 0xffff_ffff_ffff_ffffnat,
                ;
            },
        }
        i = i + 1;
    }
    assert(sizes@.subrange(0, sizes@.len() as int) =~= sizes@);
    CleanupSummary { count, total_bytes: total }
}

/// A one-character string holding the decimal digit of value `d`.
fn digit_str(d: u8) -> (r: &'static str)
    requires
        d < 10,
    ensures
        r@ == seq![digit_char(d as nat)],
{
    let digits = "0123456789";
    proof {
        reveal_strlit("0123456789");
    }
    assert(digits.is_ascii());
    let r = digits.substring_ascii(d as usize, d as usize + 1);
    assert(r@ =~= seq![digit_char(d as nat)]);
    r
}

/// Writes `n` in decimal.
pub fn decimal(n: u128) -> (r: String)
    ensures
        r@ == decimal_of(n as nat),
    decreases n,
{
    if n < 10 {
        String::from_str(digit_str(n as u8))
    } else {
        let head = decimal(n / 10);
        head.concat(digit_str((n % 10) as u8))
    }
}

proof fn lemma_hundredths_split(bytes: nat, whole: nat, frac: nat, qf: nat, rf: nat)
    requires
        bytes == whole * 1048576 + frac,
        frac < 1048576,
        frac * 100 == qf * 1048576 + rf,
        rf < 1048576,
    ensures
        mib_hundredths(bytes) == whole * 100 + div_round_half_even(frac * 100, 1048576),
{
    let x = bytes * 100;
    assert(x == (whole * 100 + qf) * 1048576 + rf) by (nonlinear_arith)
        requires
            bytes == whole * 1048576 + frac,
            frac * 100 == qf * 1048576 + rf,
            x == bytes * 100,
    ;
    lemma_fundamental_div_mod_converse(x as int, 1048576, (whole * 100 + qf) as int, rf as int);
    lemma_fundamental_div_mod_converse(
        (frac * 100) as int,
        1048576,
        qf as int,
        rf as int,
    );
    assert((whole * 100 + qf) % 2 == qf % 2) by {
        lemma_fundamental_div_mod_converse(
            (whole * 100 + qf) as int,
            2,
            (whole * 50 + qf / 2) as int,
            (qf % 2) as int,
        );
    }
}

/// Writes a byte count in mebibytes with two decimals, rounded half to even
/// (`1572864` bytes is `1.50`).
pub fn mebibytes_text(bytes: u128) -> (r: String)
    ensures
        r@ == two_decimals_of(mib_hundredths(bytes as nat)),
{
    let whole = bytes / MEBIBYTE;
    let frac = bytes % MEBIBYTE;
    let scaled = frac * 100;
    let qf = scaled / MEBIBYTE;
    let rf = scaled % MEBIBYTE;
    let rounded = if rf > MEBIBYTE / 2 || (rf == MEBIBYTE / 2 && qf % 2 == 1) {
        qf + 1
    } else {
        qf
    };
    proof {
        lemma_hundredths_split(bytes as nat, whole as nat, frac as nat, qf as nat, rf as nat);
    }
    let ghost h = mib_hundredths(bytes as nat);
    assert(h == whole * 100 + rounded);
    let ip: u128;
    let fp: u128;
    if rounded == 100 {
        ip = whole + 1;
        fp = 0;
        proof {
            lemma_fundamental_div_mod_converse(h as int, 100, ip as int, 0);
        }
    } else {
        ip = whole;
        fp = rounded;
        proof {
            lemma_fundamental_div_mod_converse(h as int, 100, ip as int, fp as int);
        }
    }
    let text = decimal(ip).concat(".");
    let text = text.concat(digit_str((fp / 10) as u8));
    text.concat(digit_str((fp % 10) as u8))
}

/// The report of a clean-up: how many entries were cleared and how many
/// mebibytes they held, with two decimals.
pub fn cleanup_report(summary: &CleanupSummary) -> (r: String)
    ensures
        r@ == report_of(summary.count as nat, summary.total_bytes as nat),
{
    let text = String::from_str("已清除 ").concat(decimal(summary.count as u128).as_str());
    let text = text.concat(" 个缓存文件，释放 ");
    let text = text.concat(mebibytes_text(summary.total_bytes).as_str());
    text.concat(" MB 空间")
}

/// The report when there is no cache directory: it says so, and that nothing
/// was cleared.
pub fn missing_cache_report() -> (r: String)
    ensures
        r@ == missing_report_of(),
{
    let none = CleanupSummary { count: 0, total_bytes: 0 };
    String::from_str("缓存目录不存在，").concat(cleanup_report(&none).as_str())
}

/// The report of clearing a cache directory whose entries had the sizes
/// `sizes` (`None` where an entry's size could not be read).
pub fn clear_report(sizes: &Vec<Option<u64>>) -> (r: String)
    ensures
        r@ == report_of(entries_counted(sizes@), bytes_counted(sizes@)),
{
    cleanup_report(&summarize(sizes))
}

/// Clearing an empty or missing cache counts no entries and no bytes, and
/// the report says so.
pub proof fn lemma_empty_cache_reports_zero()
    ensures
        entries_counted(Seq::<Option<u64>>::empty()) == 0,
        bytes_counted(Seq::<Option<u64>>::empty()) == 0,
        report_of(0, 0) == "已清除 0 个缓存文件，释放 0.00 MB 空间"@,
        missing_report_of()
            == "缓存目录不存在，已清除 0 个缓存文件，释放 0.00 MB 空间"@,
{
    reveal_strlit("已清除 ");
    reveal_strlit(" 个缓存文件，释放 ");
    reveal_strlit(".");
    reveal_strlit(" MB 空间");
    reveal_strlit("已清除 0 个缓存文件，释放 0.00 MB 空间");
    reveal_strlit("缓存目录不存在，");
    reveal_strlit("缓存目录不存在，已清除 0 个缓存文件，释放 0.00 MB 空间");
    assert(decimal_of(0) =~= seq!['0']);
    assert(mib_hundredths(0) == 0);
    assert(two_decimals_of(0) =~= seq!['0', '.', '0', '0']);
    assert(report_of(0, 0) =~= "已清除 0 个缓存文件，释放 0.00 MB 空间"@);
    assert(missing_report_of()
        =~= "缓存目录不存在，已清除 0 个缓存文件，释放 0.00 MB 空间"@);
}

/// Where every entry's size could be read, every entry is counted.
pub proof fn lemma_readable_entries_all_counted(sizes: Seq<Option<u64>>)
    requires
        forall|i: int| 0 <= i < sizes.len() ==> (#[trigger] sizes[i]) is Some,
    ensures
        entries_counted(sizes) == sizes.len(),
    decreases sizes.len(),
{
    if sizes.len() > 0 {
        let rest = sizes.drop_last();
        assert forall|i: int| 0 <= i < rest.len() implies (#[trigger] rest[i]) is Some by {
            assert(rest[i] == sizes[i]);
        }
        lemma_readable_entries_all_counted(rest);
    }
}

} // verus!
