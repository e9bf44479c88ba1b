//! The exact texts handed to the external probe and transcode tools:
//! decimal rendering of dimensions, the scale filter, and the two fixed
//! argument lists.

use vstd::prelude::*;
use vstd::string::StringExecFns;

verus! {

/// The character of one decimal digit.
pub open spec fn digit_char(d: int) -> char {
    if d == 0 {
        '0'
    } else if d == 1 {
        '1'
    } else if d == 2 {
        '2'
    } else if d == 3 {
        '3'
    } else if d == 4 {
        '4'
    } else if d == 5 {
        '5'
    } else if d == 6 {
        '6'
    } else if d == 7 {
        '7'
    } else if d == 8 {
        '8'
    } else {
        '9'
    }
}

/// The decimal digits of `n`, most significant first.
pub open spec fn dec_digits(n: int) -> Seq<char>
    recommends
        n >= 0,
    decreases n,
{
    if n < 10 {
        seq![digit_char(n)]
    } else {
        dec_digits(n / 10).push(digit_char(n % 10))
    }
}

/// One decimal digit as a string.
fn digit_str(d: u32) -> (r: &'static str)
    requires
        d < 10,
    ensures
        r@ == seq![digit_char(d as int)],
{
    proof {
        reveal_strlit("0");
        reveal_strlit("1");
        reveal_strlit("2");
        reveal_strlit("3");
        reveal_strlit("4");
        reveal_strlit("5");
        reveal_strlit("6");
        reveal_strlit("7");
        reveal_strlit("8");
        reveal_strlit("9");
    }
    let r = if d == 0 {
        "0"
    } else if d == 1 {
        "1"
    } else if d == 2 {
        "2"
    } else if d == 3 {
        "3"
    } else if d == 4 {
        "4"
    } else if d == 5 {
        "5"
    } else if d == 6 {
        "6"
    } else if d == 7 {
        "7"
    } else if d == 8 {
        "8"
    } else {
        "9"
    };
    proof {
        assert(r@ =~= seq![digit_char(d as int)]);
    }
    r
}

/// Render a number in decimal.
pub fn u32_to_string(n: u32) -> (r: String)
    ensures
        r@ == dec_digits(n as int),
    decreases n,
{
    if n < 10 {
        String::from_str(digit_str(n))
    } else {
        let mut r = u32_to_string(n / 10);
        r.append(digit_str(n % 10));
        proof {
            assert(dec_digits((n / 10) as int) + seq![digit_char((n % 10) as int)] =~= dec_digits(
                n as int,
            ));
        }
        r
    }
}

/// The scale filter handed to the transcoder for a `w x h` target.
pub open spec fn scale_filter_spec(w: int, h: int) -> Seq<char> {
    "scale="@ + dec_digits(w) + ":"@ + dec_digits(h)
}

/// Build the transcoder's scale filter for a target frame size.
pub fn scale_filter(w: u32, h: u32) -> (r: String)
    ensures
        r@ == scale_filter_spec(w as int, h as int),
{
    let mut s = String::from_str("scale=");
    s.append(u32_to_string(w).as_str());
    s.append(":");
    s.append(u32_to_string(h).as_str());
    s
}

/// The probe tool's arguments: a quiet JSON report of the input's streams.
pub fn probe_args(input_path: &str) -> (r: Vec<String>)
    ensures
        r@.len() == 6,
        r@[0]@ == "-v"@,
        r@[1]@ == "quiet"@,
        r@[2]@ == "-print_format"@,
        r@[3]@ == "json"@,
        r@[4]@ == "-show_streams"@,
        r@[5]@ == input_path@,
{
    let mut args: Vec<String> = Vec::new();
    args.push(String::from_str("-v"));
    args.push(String::from_str("quiet"));
    args.push(String::from_str("-print_format"));
    args.push(String::from_str("json"));
    args.push(String::from_str("-show_streams"));
    args.push(String::from_str(input_path));
    args
}

/// The transcoder's arguments: scale to the target size and re-encode with
/// the fixed web-friendly configuration — baseline H.264 at level 4.0, fast
/// preset, quality target 23, AAC audio at 128k, and a streaming-optimized
/// container — overwriting the output file.
pub fn transcode_args(input_path: &str, output_path: &str, w: u32, h: u32) -> (r: Vec<String>)
    ensures
        r@.len() == 22,
        r@[0]@ == "-i"@,
        r@[1]@ == input_path@,
        r@[2]@ == "-vf"@,
        r@[3]@ == scale_filter_spec(w as int, h as int),
        r@[4]@ == "-c:v"@,
        r@[5]@ == "libx264"@,
        r@[6]@ == "-profile:v"@,
        r@[7]@ == "baseline"@,
        r@[8]@ == "-level"@,
        r@[9]@ == "4.0"@,
        r@[10]@ == "-preset"@,
        r@[11]@ == "fast"@,
        r@[12]@ == "-crf"@,
        r@[13]@ == "23"@,
        r@[14]@ == "-c:a"@,
        r@[15]@ == "aac"@,
        r@[16]@ == "-b:a"@,
        r@[17]@ == "128k"@,
        r@[18]@ == "-movflags"@,
        r@[19]@ == "+faststart"@,
        r@[20]@ == "-y"@,
        r@[21]@ == output_path@,
{
    let mut args: Vec<String> = Vec::new();
    args.push(String::from_str("-i"));
    args.push(String::from_str(input_path));
    args.push(String::from_str("-vf"));
    args.push(scale_filter(w, h));
    args.push(String::from_str("-c:v"));
    args.push(String::from_str("libx264"));
    args.push(String::from_str("-profile:v"));
    args.push(String::from_str("baseline"));
    args.push(String::from_str("-level"));
    args.push(String::from_str("4.0"));
    args.push(String::from_str("-preset"));
    args.push(String::from_str("fast"));
    args.push(String::from_str("-crf"));
    args.push(String::from_str("23"));
    args.push(String::from_str("-c:a"));
    args.push(String::from_str("aac"));
    args.push(String::from_str("-b:a"));
    args.push(String::from_str("128k"));
    args.push(String::from_str("-movflags"));
    args.push(String::from_str("+faststart"));
    args.push(String::from_str("-y"));
    args.push(String::from_str(output_path));
    args
}

} // verus!
