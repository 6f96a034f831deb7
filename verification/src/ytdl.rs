//! Choosing what to download from youtube-dl's report of a video, and the
//! command lines of the downloader and of the audio/video merge.

use vstd::prelude::*;
use crate::text::{owned, replace, replace_all, split_char, split_on, text_eq, views};

verus! {

/// One format youtube-dl offers for a video.
#[derive(Debug)]
pub struct YTFormat {
    pub format: String,
    pub id: String,
    pub note: Option<String>,
    pub url: String,
    pub filesize: Option<usize>,
    pub ext: String,
}

/// youtube-dl's report of a video: the formats offered and the chosen one.
#[derive(Debug)]
pub struct YTInfo {
    pub formats: Vec<YTFormat>,
    pub id: String,
    /// The chosen video format id and audio format id, joined by `+`; or a
    /// single id.
    pub format_id: String,
    pub format: String,
    /// The best video codec; can be "none".
    pub vcodec: String,
    /// The best audio codec; can be "none".
    pub acodec: String,
}

/// The codec recorded when youtube-dl reports none.
pub fn default_codec() -> (r: String)
    ensures
        r@ == "none"@,
{
    owned("none")
}

/// The first format in `fs` whose id is `id`.
pub open spec fn find_format(fs: Seq<YTFormat>, id: Seq<char>) -> Option<YTFormat>
    decreases fs.len(),
{
    if fs.len() == 0 {
        None
    } else if fs[0].id@ == id {
        Some(fs[0])
    } else {
        find_format(fs.subrange(1, fs.len() as int), id)
    }
}

/// The formats named by the chosen format id: the first piece names the
/// video, the second (if any) the audio.
pub open spec fn chosen(info: YTInfo) -> (Option<YTFormat>, Option<YTFormat>) {
    let ids = split_on(info.format_id@, '+');
    (
        find_format(info.formats@, ids[0]),
        if ids.len() > 1 {
            find_format(info.formats@, ids[1])
        } else {
            None
        },
    )
}

/// `true` or `false`, as displayed.
pub open spec fn bool_text(b: bool) -> Seq<char> {
    if b {
        "true"@
    } else {
        "false"@
    }
}

/// The error text when the chosen formats are not a video and an audio.
pub open spec fn unknown_format_text(has_video: bool, has_audio: bool) -> Seq<char> {
    "unknown video format specifier with ("@ + bool_text(has_video) + ", "@ + bool_text(has_audio)
        + ")"@
}

/// The addresses to download: the video's (with an HLS playlist suffix
/// `.m3u8` turned into `.ts`) and the audio's.
pub open spec fn download_plan(info: YTInfo) -> Result<(Seq<char>, Seq<char>), Seq<char>> {
    match chosen(info) {
        (Some(v), Some(a)) => Ok((replace_all(v.url@, ".m3u8"@, ".ts"@), a.url@)),
        (v, a) => Err(unknown_format_text(v is Some, a is Some)),
    }
}

fn bool_string(b: bool) -> (r: String)
    ensures
        r@ == bool_text(b),
{
    if b {
        owned("true")
    } else {
        owned("false")
    }
}

impl YTInfo {
    /// The first offered format whose id is `id`.
    pub fn get_format(&self, id: &str) -> (r: Option<&YTFormat>)
        ensures
            match r {
                Some(f) => find_format(self.formats@, id@) == Some(*f),
                None => find_format(self.formats@, id@) is None,
            },
    {
        let n = self.formats.len();
        let mut i: usize = 0;
        assert(self.formats@.subrange(0, n as int) =~= self.formats@);
        while i < n
            invariant
                n == self.formats@.len(),
                i <= n,
                find_format(self.formats@.subrange(i as int, n as int), id@) == find_format(
                    self.formats@,
                    id@,
                ),
            decreases n - i,
        {
            let ghost rest = self.formats@.subrange(i as int, n as int);
            assert(rest[0] == self.formats@[i as int]);
            if text_eq(self.formats[i].id.as_str(), id) {
                return Some(&self.formats[i]);
            }
            assert(rest.subrange(1, rest.len() as int) =~= self.formats@.subrange(i + 1, n as int));
            i = i + 1;
        }
        None
    }

    /// The chosen video format and audio format, where they are offered.
    pub fn chosen_format(&self) -> (r: (Option<&YTFormat>, Option<&YTFormat>))
        ensures
            match r.0 {
                Some(f) => chosen(*self).0 == Some(*f),
                None => chosen(*self).0 is None,
            },
            match r.1 {
                Some(f) => chosen(*self).1 == Some(*f),
                None => chosen(*self).1 is None,
            },
    {
        let ids = split_char(self.format_id.as_str(), '+');
        proof {
            crate::text::lemma_split_on_nonempty(self.format_id@, '+');
        }
        assert(views(ids@)[0] == ids@[0]@);
        let video = self.get_format(ids[0].as_str());
        let audio = if ids.len() > 1 {
            assert(views(ids@)[1] == ids@[1]@);
            self.get_format(ids[1].as_str())
        } else {
            None
        };
        (video, audio)
    }

    /// The addresses of the video and of the audio to download.
    pub fn download_urls(&self) -> (r: Result<(String, String), String>)
        ensures
            match r {
                Ok((v, a)) => download_plan(*self) == Ok::<(Seq<char>, Seq<char>), Seq<char>>(
                    (v@, a@),
                ),
                Err(e) => download_plan(*self) == Err::<(Seq<char>, Seq<char>), Seq<char>>(e@),
            },
    {
        match self.chosen_format() {
            (Some(v), Some(a)) => {
                proof {
                    reveal_strlit(".m3u8");
                }
                let video_url = replace(v.url.as_str(), ".m3u8", ".ts");
                Ok((video_url, a.url.clone()))
            },
            (v, a) => {
                let mut e = owned("unknown video format specifier with (");
                let hv = bool_string(v.is_some());
                let ha = bool_string(a.is_some());
                e.append(hv.as_str());
                e.append(", ");
                e.append(ha.as_str());
                e.append(")");
                Err(e)
            },
        }
    }
}

/// The arguments of the youtube-dl call that reports on `url`.
pub open spec fn info_args(url: Seq<char>, extra: Seq<Seq<char>>) -> Seq<Seq<char>> {
    seq!["--restrict-filenames"@, "-J"@, "--write-info-json"@, url] + extra
}

/// The arguments of the youtube-dl call that reports on `url`, followed by
/// the caller's `extra` arguments.
pub fn info_command_args(url: &str, extra: &Vec<String>) -> (r: Vec<String>)
    ensures
        views(r@) == info_args(url@, views(extra@)),
{
    let mut r: Vec<String> = Vec::new();
    r.push(owned("--restrict-filenames"));
    r.push(owned("-J"));
    r.push(owned("--write-info-json"));
    r.push(owned(url));
    let ghost start = views(r@);
    assert(start =~= seq!["--restrict-filenames"@, "-J"@, "--write-info-json"@, url@]);
    let mut i: usize = 0;
    while i < extra.len()
        invariant
            i <= extra@.len(),
            views(r@) == start + views(extra@).subrange(0, i as int),
        decreases extra@.len() - i,
    {
        let ghost before = views(r@);
        let a = extra[i].clone();
        r.push(a);
        assert(views(r@) =~= before.push(extra@[i as int]@));
        assert(views(extra@).subrange(0, i + 1) =~= views(extra@).subrange(0, i as int).push(
            extra@[i as int]@,
        ));
        i = i + 1;
    }
    assert(views(extra@).subrange(0, extra@.len() as int) =~= views(extra@));
    r
}

/// The arguments of the ffmpeg call that merges `video` and `audio` into an
/// mp4 file at `out`, overwriting it.
pub open spec fn merge_args(video: Seq<char>, audio: Seq<char>, out: Seq<char>) -> Seq<Seq<char>> {
    seq!["-y"@, "-i"@, video, "-i"@, audio, "-c"@, "copy"@, "-f"@, "mp4"@, out]
}

/// The arguments of the ffmpeg call that merges `video` and `audio` into `out`.
pub fn merge_command_args(video: &str, audio: &str, out: &str) -> (r: Vec<String>)
    ensures
        views(r@) == merge_args(video@, audio@, out@),
{
    let mut r: Vec<String> = Vec::new();
    r.push(owned("-y"));
    r.push(owned("-i"));
    r.push(owned(video));
    r.push(owned("-i"));
    r.push(owned(audio));
    r.push(owned("-c"));
    r.push(owned("copy"));
    r.push(owned("-f"));
    r.push(owned("mp4"));
    r.push(owned(out));
    assert(views(r@) =~= merge_args(video@, audio@, out@));
    r
}


/// The outcome of the youtube-dl report call on `url`, from whether the
/// program exited successfully.
pub fn info_run_outcome(success: bool, url: &str) -> (r: Result<(), String>)
    ensures
        r is Ok <==> success,
        r matches Err(e) ==> e@ == "failed to run youtube-dl on "@ + url@,
{
    if success {
        Ok(())
    } else {
        Err(crate::text::concat("failed to run youtube-dl on ", url))
    }
}

/// The outcome of the ffmpeg merge, from whether the program exited
/// successfully and what it wrote to its error stream.
pub fn merge_outcome(success: bool, stderr: &str) -> (r: Result<(), String>)
    ensures
        r is Ok <==> success,
        r matches Err(e) ==> e@ == "failed to transcode:\n"@ + stderr@,
{
    if success {
        Ok(())
    } else {
        Err(crate::text::concat("failed to transcode:\n", stderr))
    }
}


/// The plan succeeds exactly when both the chosen video and the chosen audio
/// are offered; the audio address is the chosen audio format's URL, unchanged,
/// and the video address is the chosen video format's URL with each `.m3u8`
/// turned into `.ts`.
pub proof fn lemma_download_plan(info: YTInfo)
    ensures
        download_plan(info) is Ok <==> (chosen(info).0 is Some && chosen(info).1 is Some),
        download_plan(info) matches Ok((v, a)) ==> (chosen(info).1 matches Some(af) && a
            == af.url@),
        download_plan(info) matches Ok((v, a)) ==> (chosen(info).0 matches Some(vf) && v
            == replace_all(vf.url@, ".m3u8"@, ".ts"@)),
{
}

/// The chosen formats are offered formats whose ids are the pieces of the
/// chosen format id: the video's the first piece, the audio's the second.
pub proof fn lemma_chosen_formats_match_ids(info: YTInfo)
    ensures
        chosen(info).0 matches Some(v) ==> v.id@ == split_on(info.format_id@, '+')[0]
            && info.formats@.contains(v),
        chosen(info).1 matches Some(a) ==> split_on(info.format_id@, '+').len() > 1 && a.id@
            == split_on(info.format_id@, '+')[1] && info.formats@.contains(a),
{
    lemma_find_format_found(info.formats@, split_on(info.format_id@, '+')[0]);
    if split_on(info.format_id@, '+').len() > 1 {
        lemma_find_format_found(info.formats@, split_on(info.format_id@, '+')[1]);
    }
}

/// A format found for an id is an offered format with that id.
pub proof fn lemma_find_format_found(fs: Seq<YTFormat>, id: Seq<char>)
    ensures
        find_format(fs, id) matches Some(f) ==> f.id@ == id && fs.contains(f),
    decreases fs.len(),
{
    if fs.len() > 0 && fs[0].id@ != id {
        let rest = fs.subrange(1, fs.len() as int);
        lemma_find_format_found(rest, id);
        match find_format(rest, id) {
            Some(f) => {
                let k = choose|k: int| 0 <= k < rest.len() && rest[k] == f;
                assert(fs[k + 1] == f);
            },
            None => {},
        }
    } else if fs.len() > 0 {
        assert(fs[0] == fs[0]);
    }
}

} // verus!
