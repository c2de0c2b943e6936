use vstd::prelude::*;

verus! {

/// A start position within a media item, as whole seconds and nanoseconds.
#[derive(Clone, Copy, Debug, PartialEq, Eq)]
pub struct SeekOffset {
    pub secs: u64,
    pub nanos: u32,
}

impl SeekOffset {
    /// The offset rounded to the nearest millisecond (halves round up).
    pub open spec fn total_millis(self) -> nat {
        (self.secs * 1000 + (self.nanos + 500_000) / 1_000_000) as nat
    }
}

pub open spec fn digit_char(d: nat) -> char {
    if d == 0 { '0' }
    else if d == 1 { '1' }
    else if d == 2 { '2' }
    else if d == 3 { '3' }
    else if d == 4 { '4' }
    else if d == 5 { '5' }
    else if d == 6 { '6' }
    else if d == 7 { '7' }
    else if d == 8 { '8' }
    else { '9' }
}

/// The decimal digits of `n`, most significant first, without leading zeros.
pub open spec fn decimal(n: nat) -> Seq<char>
    decreases n,
{
    if n < 10 {
        seq![digit_char(n)]
    } else {
        decimal(n / 10).push(digit_char(n % 10))
    }
}

/// Seconds with exactly three decimals, e.g. `12.345`.
pub open spec fn seek_text_spec(o: SeekOffset) -> Seq<char> {
    let ms = o.total_millis();
    decimal(ms / 1000) + seq!['.', digit_char(ms % 1000 / 100), digit_char(ms % 100 / 10),
        digit_char(ms % 10)]
}

fn digit_str(d: u128) -> (r: &'static str)
    requires
        d < 10,
    ensures
        r@ == seq![digit_char(d as nat)],
{
    proof {
        reveal_strlit("0");
        reveal_strlit("1");
        reveal_strlit("2");
        reveal_strlit("3");
        reveal_strlit("4");
        reveal_strlit("5");
        reveal_strlit("6");
        reveal_strlit("7");
        reveal_strlit("8");
        reveal_strlit("9");
    }
    if d == 0 { "0" }
    else if d == 1 { "1" }
    else if d == 2 { "2" }
    else if d == 3 { "3" }
    else if d == 4 { "4" }
    else if d == 5 { "5" }
    else if d == 6 { "6" }
    else if d == 7 { "7" }
    else if d == 8 { "8" }
    else { "9" }
}

/// Appends the decimal digits of `n` to `s`.
pub fn push_decimal(s: &mut String, n: u128)
    ensures
        final(s)@ == old(s)@ + decimal(n as nat),
    decreases n,
{
    if n >= 10 {
        push_decimal(s, n / 10);
    }
    s.append(digit_str(n % 10));
    proof {
        if n >= 10 {
            assert(old(s)@ + decimal(n as nat) =~= old(s)@ + decimal((n / 10) as nat) + seq![
                digit_char((n % 10) as nat)]);
        } else {
            assert(decimal(n as nat) == seq![digit_char((n % 10) as nat)]);
        }
    }
}

/// The transcoder's seek argument: the offset in seconds, with three decimals.
pub fn seek_text(o: SeekOffset) -> (r: String)
    ensures
        r@ == seek_text_spec(o),
{
    let frac_ms: u128 = (o.nanos as u128 + 500_000) / 1_000_000;
    let ms: u128 = o.secs as u128 * 1000 + frac_ms;
    assert(ms == o.total_millis());
    let mut s = String::new();
    push_decimal(&mut s, ms / 1000);
    proof {
        reveal_strlit(".");
    }
    s.append(".");
    s.append(digit_str(ms % 1000 / 100));
    s.append(digit_str(ms % 100 / 10));
    s.append(digit_str(ms % 10));
    assert(s@ =~= seek_text_spec(o));
    s
}

/// The views of a list of arguments.
pub open spec fn arg_views(v: Seq<String>) -> Seq<Seq<char>> {
    v.map_values(|a: String| a@)
}

/// Format selection and retry policy shared by every resolver invocation that
/// picks a single item.
pub open spec fn selection_args() -> Seq<Seq<char>> {
    seq![
        "-f"@, "webm[abr>0]/bestaudio/best"@, "-R"@, "infinite"@, "--no-playlist"@,
        "--ignore-config"@, "--no-warnings"@,
    ]
}

/// Resolver streaming the media to its output, after one record on its diagnostics.
pub open spec fn stream_resolver_args_spec(uri: Seq<char>) -> Seq<Seq<char>> {
    seq!["--print-json"@] + selection_args() + seq![uri, "-o"@, "-"@]
}

/// Resolver printing the record only, with no media transfer.
pub open spec fn metadata_resolver_args_spec(uri: Seq<char>) -> Seq<Seq<char>> {
    seq!["-j"@] + selection_args() + seq![uri, "-o"@, "-"@]
}

/// Resolver listing a playlist flat, as one JSON object.
pub open spec fn playlist_resolver_args_spec(uri: Seq<char>) -> Seq<Seq<char>> {
    seq!["-J"@, "--flat-playlist"@, uri, "-o"@, "-"@]
}

/// The fixed loudness target: integrated loudness, range and true peak.
pub open spec fn loudness_filter() -> Seq<char> {
    "loudnorm=I=-16:LRA=11:TP=-1.5"@
}

/// Fixed output: raw stereo samples at 48 kHz as 32-bit floats, normalised.
pub open spec fn transcoder_output_args() -> Seq<Seq<char>> {
    seq![
        "-f"@, "s16le"@, "-ac"@, "2"@, "-ar"@, "48000"@, "-acodec"@, "pcm_f32le"@, "-af"@,
        loudness_filter(), "-"@,
    ]
}

/// Transcoder reading its input from a pipe, after an optional input seek.
pub open spec fn transcoder_args_spec(seek: Option<SeekOffset>) -> Seq<Seq<char>> {
    let lead = match seek {
        Some(o) => seq!["-ss"@, seek_text_spec(o)],
        None => Seq::<Seq<char>>::empty(),
    };
    lead + seq!["-i"@, "-"@] + transcoder_output_args()
}

fn push_arg(v: &mut Vec<String>, a: &str)
    ensures
        final(v)@.len() == old(v)@.len() + 1,
        arg_views(final(v)@) == arg_views(old(v)@).push(a@),
{
    v.push(String::from_str(a));
    assert(arg_views(final(v)@) =~= arg_views(old(v)@).push(a@));
}

fn push_selection_args(v: &mut Vec<String>)
    ensures
        arg_views(final(v)@) == arg_views(old(v)@) + selection_args(),
{
    push_arg(v, "-f");
    push_arg(v, "webm[abr>0]/bestaudio/best");
    push_arg(v, "-R");
    push_arg(v, "infinite");
    push_arg(v, "--no-playlist");
    push_arg(v, "--ignore-config");
    push_arg(v, "--no-warnings");
    assert(arg_views(final(v)@) =~= arg_views(old(v)@) + selection_args());
}

/// Arguments of the resolver for a live pipeline: media to the output pipe,
/// one record on the diagnostic pipe first.
pub fn stream_resolver_args(uri: &str) -> (r: Vec<String>)
    ensures
        arg_views(r@) == stream_resolver_args_spec(uri@),
{
    let mut v: Vec<String> = Vec::new();
    push_arg(&mut v, "--print-json");
    push_selection_args(&mut v);
    push_arg(&mut v, uri);
    push_arg(&mut v, "-o");
    push_arg(&mut v, "-");
    assert(arg_views(v@) =~= stream_resolver_args_spec(uri@));
    v
}

/// Arguments of the resolver when only the record is wanted.
pub fn metadata_resolver_args(uri: &str) -> (r: Vec<String>)
    ensures
        arg_views(r@) == metadata_resolver_args_spec(uri@),
{
    let mut v: Vec<String> = Vec::new();
    push_arg(&mut v, "-j");
    push_selection_args(&mut v);
    push_arg(&mut v, uri);
    push_arg(&mut v, "-o");
    push_arg(&mut v, "-");
    assert(arg_views(v@) =~= metadata_resolver_args_spec(uri@));
    v
}

/// Arguments of the resolver for a flat playlist listing.
pub fn playlist_resolver_args(uri: &str) -> (r: Vec<String>)
    ensures
        arg_views(r@) == playlist_resolver_args_spec(uri@),
{
    let mut v: Vec<String> = Vec::new();
    push_arg(&mut v, "-J");
    push_arg(&mut v, "--flat-playlist");
    push_arg(&mut v, uri);
    push_arg(&mut v, "-o");
    push_arg(&mut v, "-");
    assert(arg_views(v@) =~= playlist_resolver_args_spec(uri@));
    v
}

/// Arguments of the transcoder: the seek, if any, applies to the input.
pub fn transcoder_args(seek: Option<SeekOffset>) -> (r: Vec<String>)
    ensures
        arg_views(r@) == transcoder_args_spec(seek),
{
    let mut v: Vec<String> = Vec::new();
    assert(arg_views(v@) =~= Seq::<Seq<char>>::empty());
    if let Some(o) = seek {
        push_arg(&mut v, "-ss");
        let t = seek_text(o);
        let ghost before = v@;
        v.push(t);
        assert(arg_views(v@) =~= arg_views(before).push(t@));
        assert(arg_views(v@) =~= seq!["-ss"@, seek_text_spec(o)]);
    }
    assert(arg_views(v@) =~= match seek {
        Some(o) => seq!["-ss"@, seek_text_spec(o)],
        None => Seq::<Seq<char>>::empty(),
    });
    push_arg(&mut v, "-i");
    push_arg(&mut v, "-");
    push_arg(&mut v, "-f");
    push_arg(&mut v, "s16le");
    push_arg(&mut v, "-ac");
    push_arg(&mut v, "2");
    push_arg(&mut v, "-ar");
    push_arg(&mut v, "48000");
    push_arg(&mut v, "-acodec");
    push_arg(&mut v, "pcm_f32le");
    push_arg(&mut v, "-af");
    push_arg(&mut v, "loudnorm=I=-16:LRA=11:TP=-1.5");
    push_arg(&mut v, "-");
    assert(arg_views(v@) =~= transcoder_args_spec(seek));
    v
}

/// Name of the resolver executable.
pub fn resolver_program() -> (r: &'static str)
    ensures
        r@ == "youtube-dl"@,
{
    "youtube-dl"
}

/// Name of the transcoder executable.
pub fn transcoder_program() -> (r: &'static str)
    ensures
        r@ == "ffmpeg"@,
{
    "ffmpeg"
}

} // verus!
