use vstd::prelude::*;

verus! {

/// The decimal digits, by value.
pub open spec fn dec_digits() -> Seq<char> {
    seq!['0', '1', '2', '3', '4', '5', '6', '7', '8', '9']
}

/// `n` in decimal, without leading zeros.
pub open spec fn decimal(n: nat) -> Seq<char>
    decreases n,
{
    if n < 10 {
        seq![dec_digits()[n as int]]
    } else {
        decimal(n / 10) + seq![dec_digits()[(n % 10) as int]]
    }
}

/// The digits of `n` above the last one taken off: empty once none is left.
spec fn decimal_prefix(n: nat) -> Seq<char> {
    if n == 0 {
        Seq::empty()
    } else {
        decimal(n)
    }
}

/// Two numbers with the same decimal text are equal.
pub proof fn lemma_decimal_injective(a: nat, b: nat)
    requires
        decimal(a) == decimal(b),
    ensures
        a == b,
    decreases a,
{
    reveal_with_fuel(decimal, 2);
    let da = decimal(a);
    let db = decimal(b);
    if a < 10 && b < 10 {
        assert(da[0] == db[0]);
    } else if a < 10 {
        assert(db.len() == decimal(b / 10).len() + 1);
        lemma_decimal_nonempty(b / 10);
    } else if b < 10 {
        assert(da.len() == decimal(a / 10).len() + 1);
        lemma_decimal_nonempty(a / 10);
    } else {
        let pa = decimal(a / 10);
        let pb = decimal(b / 10);
        assert(da.len() == pa.len() + 1);
        assert(db.len() == pb.len() + 1);
        assert(da[da.len() - 1] == dec_digits()[(a % 10) as int]);
        assert(db[db.len() - 1] == dec_digits()[(b % 10) as int]);
        assert(a % 10 == b % 10);
        assert(pa =~= da.subrange(0, da.len() - 1));
        assert(pb =~= db.subrange(0, db.len() - 1));
        lemma_decimal_injective(a / 10, b / 10);
    }
}

proof fn lemma_decimal_nonempty(n: nat)
    ensures
        decimal(n).len() >= 1,
    decreases n,
{
    if n >= 10 {
        lemma_decimal_nonempty(n / 10);
    }
}

/// Text of one decimal digit.
fn digit_str(d: u64) -> (r: &'static str)
    requires
        d < 10,
    ensures
        r@ == seq![dec_digits()[d as int]],
{
    proof {
        reveal_strlit("0");
        reveal_strlit("1");
        reveal_strlit("2");
        reveal_strlit("3");
        reveal_strlit("4");
        reveal_strlit("5");
        reveal_strlit("6");
        reveal_strlit("7");
        reveal_strlit("8");
        reveal_strlit("9");
    }
    let r = if d == 0 {
        "0"
    } else if d == 1 {
        "1"
    } else if d == 2 {
        "2"
    } else if d == 3 {
        "3"
    } else if d == 4 {
        "4"
    } else if d == 5 {
        "5"
    } else if d == 6 {
        "6"
    } else if d == 7 {
        "7"
    } else if d == 8 {
        "8"
    } else {
        "9"
    };
    assert(r@ =~= seq![dec_digits()[d as int]]);
    r
}

/// `n` written in decimal.
pub fn decimal_text(n: u64) -> (r: String)
    ensures
        r@ == decimal(n as nat),
{
    let mut rest: u64 = n / 10;
    let mut text = String::from_str(digit_str(n % 10));
    proof {
        reveal_with_fuel(decimal, 2);
        assert(decimal(n as nat) =~= decimal_prefix(rest as nat) + text@);
    }
    while rest > 0
        invariant
            decimal(n as nat) == decimal_prefix(rest as nat) + text@,
        decreases rest,
    {
        let next = String::from_str(digit_str(rest % 10)).concat(text.as_str());
        proof {
            reveal_with_fuel(decimal, 2);
            assert(decimal_prefix(rest as nat) =~= decimal_prefix((rest / 10) as nat) + seq![
                dec_digits()[(rest % 10) as int],
            ]);
            assert(decimal_prefix(rest as nat) + text@ =~= decimal_prefix((rest / 10) as nat)
                + next@);
        }
        text = next;
        rest = rest / 10;
    }
    assert(text@ =~= decimal(n as nat));
    text
}

/// A dimension rounded up to the next even number: `ceil(d / 2) * 2`.
pub open spec fn even_up(d: nat) -> nat {
    (((d + 1) / 2) * 2) as nat
}

/// Rounds a dimension up to the next even number.
pub fn even_dimension(d: u32) -> (r: u64)
    ensures
        r == even_up(d as nat),
{
    ((d as u64 + 1) / 2) * 2
}

/// The even rounding of every dimension is even and no smaller than the
/// dimension, and at most one above it.
pub proof fn lemma_even_up(d: nat)
    ensures
        even_up(d) % 2 == 0,
        d <= even_up(d) <= d + 1,
{
}

/// The filter graph that fits the picture into the even-rounded box, keeping
/// its aspect ratio and never enlarging it.
pub open spec fn scale_expr(w: nat, h: nat) -> Seq<char> {
    "scale='min("@ + decimal(even_up(w)) + ",iw)':'min("@ + decimal(even_up(h))
        + ",ih)':force_original_aspect_ratio=decrease:force_divisible_by=2"@
}

/// Builds the filter graph for a target of `w` by `h`.
pub fn scale_filter(w: u32, h: u32) -> (r: String)
    ensures
        r@ == scale_expr(w as nat, h as nat),
{
    let wt = decimal_text(even_dimension(w));
    let ht = decimal_text(even_dimension(h));
    String::from_str("scale='min(").concat(wt.as_str()).concat(",iw)':'min(").concat(
        ht.as_str(),
    ).concat(",ih)':force_original_aspect_ratio=decrease:force_divisible_by=2")
}

/// The transcoder's command line, after the program name: read `input`, fit
/// the picture to `w` by `h`, encode the video at a constant quality and the
/// audio at a fixed bitrate, lay the file out for streaming, and overwrite
/// whatever stands at `output`.
pub open spec fn transcode_args(input: Seq<char>, w: nat, h: nat, output: Seq<char>) -> Seq<
    Seq<char>,
> {
    seq![
        "-i"@,
        input,
        "-vf"@,
        scale_expr(w, h),
        "-c:v"@,
        "libx264"@,
        "-crf"@,
        "23"@,
        "-c:a"@,
        "aac"@,
        "-b:a"@,
        "128k"@,
        "-movflags"@,
        "+faststart"@,
        "-y"@,
        output,
    ]
}

/// Builds the transcoder's arguments.
pub fn transcode_arguments(input: &str, w: u32, h: u32, output: &str) -> (r: Vec<String>)
    ensures
        r.deep_view() == transcode_args(input@, w as nat, h as nat, output@),
{
    let mut v: Vec<String> = Vec::new();
    v.push(String::from_str("-i"));
    v.push(String::from_str(input));
    v.push(String::from_str("-vf"));
    v.push(scale_filter(w, h));
    v.push(String::from_str("-c:v"));
    v.push(String::from_str("libx264"));
    v.push(String::from_str("-crf"));
    v.push(String::from_str("23"));
    v.push(String::from_str("-c:a"));
    v.push(String::from_str("aac"));
    v.push(String::from_str("-b:a"));
    v.push(String::from_str("128k"));
    v.push(String::from_str("-movflags"));
    v.push(String::from_str("+faststart"));
    v.push(String::from_str("-y"));
    v.push(String::from_str(output));
    assert(v.deep_view() =~= transcode_args(input@, w as nat, h as nat, output@));
    v
}

/// Where a job writes its result: a file in `dir` whose name holds `token`.
pub open spec fn scratch_path(dir: Seq<char>, token: nat) -> Seq<char> {
    dir + "/clip-"@ + decimal(token) + ".mp4"@
}

/// Builds the output path of the job that drew `token`.
pub fn scratch_file(dir: &str, token: u64) -> (r: String)
    ensures
        r@ == scratch_path(dir@, token as nat),
{
    let t = decimal_text(token);
    String::from_str(dir).concat("/clip-").concat(t.as_str()).concat(".mp4")
}

/// Jobs that drew different tokens write to different paths in one directory.
pub proof fn lemma_scratch_paths_distinct(dir: Seq<char>, t1: nat, t2: nat)
    requires
        t1 != t2,
    ensures
        scratch_path(dir, t1) != scratch_path(dir, t2),
{
    let p = dir + "/clip-"@;
    let d1 = decimal(t1);
    let d2 = decimal(t2);
    let s = ".mp4"@;
    if scratch_path(dir, t1) == scratch_path(dir, t2) {
        let a = p + d1 + s;
        let b = p + d2 + s;
        assert(a =~= scratch_path(dir, t1));
        assert(b =~= scratch_path(dir, t2));
        assert(d1.len() == d2.len());
        assert(d1 =~= a.subrange(p.len() as int, (p.len() + d1.len()) as int));
        assert(d2 =~= b.subrange(p.len() as int, (p.len() + d2.len()) as int));
        lemma_decimal_injective(t1, t2);
    }
}

} // verus!
