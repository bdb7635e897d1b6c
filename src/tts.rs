//! The request side of a narration synthesizer reached over HTTP: which
//! sentences it sends, where it stores the returned clip, and how the clip is
//! measured.
use vstd::prelude::*;

use crate::audio::{decoded_duration_ns, measure_wav};
use crate::model::{TTSError, TTSFile};
use crate::workspace::{is_id_of_len, new_job_id, JOB_ID_LEN};

verus! {

/// The sentences of `s` that are not empty, in order.
pub open spec fn non_empty_texts(s: Seq<String>) -> Seq<Seq<char>>
    decreases s.len(),
{
    if s.len() == 0 {
        Seq::empty()
    } else if s.last()@.len() > 0 {
        non_empty_texts(s.drop_last()).push(s.last()@)
    } else {
        non_empty_texts(s.drop_last())
    }
}

pub open spec fn texts_view(v: Seq<String>) -> Seq<Seq<char>> {
    v.map_values(|s: String| s@)
}

/// A narration synthesizer behind an HTTP endpoint that takes a JSON list of
/// sentences and answers with one WAVE clip.
pub struct HttpTTSSer {
    pub url: String,
    pub temp_dir: String,
}

impl HttpTTSSer {
    /// A synthesizer posting to `url` and storing clips under "./temp".
    pub fn new(url: String) -> (r: Self)
        ensures
            r.url == url,
            r.temp_dir@ == "./temp"@,
    {
        HttpTTSSer { url, temp_dir: String::from_str("./temp") }
    }

    /// The sentences to send: the non-empty ones, in order. A list with no
    /// non-empty sentence is refused with `EmptyText` before anything is sent.
    pub fn request_texts(&self, text_list: &Vec<String>) -> (r: Result<Vec<String>, TTSError>)
        ensures
            r is Err <==> non_empty_texts(text_list@).len() == 0,
            r is Err ==> r->Err_0 is EmptyText,
            r is Ok ==> texts_view(r->Ok_0@) == non_empty_texts(text_list@),
    {
        let mut out: Vec<String> = Vec::new();
        let mut i: usize = 0;
        while i < text_list.len()
            invariant
                i <= text_list@.len(),
                texts_view(out@) == non_empty_texts(text_list@.take(i as int)),
            decreases text_list@.len() - i,
        {
            assert(text_list@.take(i + 1).drop_last() =~= text_list@.take(i as int));
            assert(text_list@.take(i + 1).last() == text_list@[i as int]);
            if !text_list[i].as_str().is_empty() {
                let t = text_list[i].clone();
                let ghost before = out@;
                out.push(t);
                assert(texts_view(out@) =~= texts_view(before).push(t@));
            }
            i = i + 1;
        }
        assert(text_list@.take(text_list@.len() as int) =~= text_list@);
        if out.len() == 0 {
            Err(TTSError::EmptyText)
        } else {
            Ok(out)
        }
    }

    /// A fresh path for a returned clip: a random name of ten characters with
    /// the ".wav" extension, in the synthesizer's directory.
    pub fn new_clip_path(&self) -> (r: String)
        ensures
            exists|id: Seq<char>|
                is_id_of_len(id, JOB_ID_LEN as nat) && r@ == #[trigger] clip_path_of(
                    self.temp_dir@,
                    id,
                ),
    {
        let id = new_job_id();
        let r = self.temp_dir.clone().concat("/").concat(id.as_str()).concat(".wav");
        assert(r@ == clip_path_of(self.temp_dir@, id@));
        r
    }

    /// The clip stored at `path` from the returned WAVE bytes `wav`: its
    /// duration is measured from the waveform, its text is left empty. A
    /// waveform that does not decode, or declares a zero sample rate, gives
    /// `HandleFailed`.
    pub fn clip_from_wav(path: String, wav: &Vec<u8>) -> (r: Result<TTSFile, TTSError>)
        ensures
            r is Ok <==> decoded_duration_ns(wav@) is Some,
            r is Ok ==> r->Ok_0.path == path && r->Ok_0.text@.len() == 0
                && decoded_duration_ns(wav@) == Some(r->Ok_0.duration_ns as nat),
            r is Err ==> r->Err_0 is HandleFailed,
    {
        match measure_wav(wav) {
            Some(d) => Ok(TTSFile { path, text: String::new(), duration_ns: d }),
            None => Err(TTSError::HandleFailed(String::from_str("the returned audio is not a waveform"))),
        }
    }
}

/// The path of a clip named `id` in `dir`.
pub open spec fn clip_path_of(dir: Seq<char>, id: Seq<char>) -> Seq<char> {
    dir + "/"@ + id + ".wav"@
}

} // verus!
