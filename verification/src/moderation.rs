use vstd::prelude::*;
use vstd::string::StringExecFns;

use crate::text::{dec_str, join_comma, joined_with, u64_string};

verus! {

/// What the lexical classifier says of a text. The analysis reads only the
/// characters of its input, so its verdict is a function of them alone.
pub uninterp spec fn inappropriate_of(s: Seq<char>) -> bool;

/// Relies on rustrict's `CensorStr::is_inappropriate` for `&str`: the
/// verdict is computed from the characters of the text alone.
#[verifier::external_body]
fn text_is_inappropriate(s: &str) -> (r: bool)
    ensures
        r == inappropriate_of(s@),
{
    rustrict::CensorStr::is_inappropriate(s)
}

/// The moderation pipeline's configuration, read once at startup. An absent
/// log channel disables the pipeline for the process lifetime; an absent
/// recognizer data directory disables image scanning.
pub struct ModerationConfig {
    pub log_channel_id: Option<u64>,
    pub ocr_data_dir: Option<String>,
}

/// A mention of a user, as the report embeds render it.
pub open spec fn user_mention(id: nat) -> Seq<char> {
    "<@"@ + dec_str(id) + ">"@
}

/// A mention of a channel, as the report embeds render it.
pub open spec fn channel_mention(id: nat) -> Seq<char> {
    "<#"@ + dec_str(id) + ">"@
}

/// Renders a user mention.
pub fn format_user_mention(id: u64) -> (r: String)
    ensures
        r@ == user_mention(id as nat),
{
    let mut s = String::new();
    s.append("<@");
    let n = u64_string(id);
    s.append(n.as_str());
    s.append(">");
    proof {
        assert(s@ =~= user_mention(id as nat));
    }
    s
}

/// Renders a channel mention.
pub fn format_channel_mention(id: u64) -> (r: String)
    ensures
        r@ == channel_mention(id as nat),
{
    let mut s = String::new();
    s.append("<#");
    let n = u64_string(id);
    s.append(n.as_str());
    s.append(">");
    proof {
        assert(s@ =~= channel_mention(id as nat));
    }
    s
}

/// The report embed posted to the log channel for a flagged message text.
pub struct TextReport {
    pub title: String,
    pub color: u32,
    pub author_mention: String,
    pub channel_mention: String,
    pub message: String,
}

/// What scanning one message text concluded.
pub enum TextScanOutcome {
    /// No log channel is configured; the pipeline is disabled.
    Disabled,
    /// The message was posted inside the log channel itself and is exempt,
    /// preventing a feedback loop.
    Exempt,
    /// The classifier found nothing; no report is posted.
    Clean,
    /// The classifier flagged the text; the caller posts this one report.
    Flagged(TextReport),
}

/// Scans one message text. Flags exactly the texts the classifier finds
/// inappropriate, unless the pipeline is disabled or the message sits in the
/// log channel itself; the one report of a flagged outcome — the caller
/// posts it once — carries the offending text unchanged.
pub fn scan_text(config: &ModerationConfig, channel_id: u64, author_id: u64, content: &str)
    -> (o: TextScanOutcome)
    ensures
        (o is Flagged) <==> (config.log_channel_id is Some && channel_id
            != config.log_channel_id->Some_0 && inappropriate_of(content@)),
        match config.log_channel_id {
            None => o is Disabled,
            Some(log) => {
                if channel_id == log {
                    o is Exempt
                } else if inappropriate_of(content@) {
                    match o {
                        TextScanOutcome::Flagged(rep) => {
                            &&& rep.title@ == "**Blacklisted word detected!**"@
                            &&& rep.color == 0xff0000u32
                            &&& rep.author_mention@ == user_mention(author_id as nat)
                            &&& rep.channel_mention@ == channel_mention(channel_id as nat)
                            &&& rep.message@ == content@
                        },
                        _ => false,
                    }
                } else {
                    o is Clean
                }
            },
        },
{
    let log = match config.log_channel_id {
        None => {
            return TextScanOutcome::Disabled;
        },
        Some(log) => log,
    };
    if channel_id == log {
        return TextScanOutcome::Exempt;
    }
    if !text_is_inappropriate(content) {
        return TextScanOutcome::Clean;
    }
    let mut title = String::new();
    title.append("**Blacklisted word detected!**");
    proof {
        assert(title@ =~= "**Blacklisted word detected!**"@);
    }
    let mut message = String::new();
    message.append(content);
    TextScanOutcome::Flagged(TextReport {
        title,
        color: 0xff0000,
        author_mention: format_user_mention(author_id),
        channel_mention: format_channel_mention(channel_id),
        message,
    })
}

/// One word region the optical recognizer reported: the recognized text and
/// the region's box within the image.
pub struct OcrWord {
    pub text: String,
    pub x: i32,
    pub y: i32,
    pub w: u32,
    pub h: u32,
}

impl OcrWord {
    /// The box leaves room for the three-pixel margin the highlight adds on
    /// every side.
    pub open spec fn box_in_range(&self) -> bool {
        &&& self.x >= i32::MIN + 3
        &&& self.y >= i32::MIN + 3
        &&& self.w <= u32::MAX - 6
        &&& self.h <= u32::MAX - 6
    }
}

/// A rectangle to draw on the annotated copy of the image.
#[derive(Clone, Copy, PartialEq, Eq, Structural, Debug)]
pub struct HighlightRect {
    pub x: i32,
    pub y: i32,
    pub w: u32,
    pub h: u32,
}

/// The highlight drawn around a flagged word region: the region's box grown
/// by three pixels on every side.
pub open spec fn highlight_of(word: OcrWord) -> HighlightRect {
    HighlightRect {
        x: (word.x - 3) as i32,
        y: (word.y - 3) as i32,
        w: (word.w + 6) as u32,
        h: (word.h + 6) as u32,
    }
}

/// The texts of the flagged regions, in the order the recognizer reported
/// them.
pub open spec fn flagged_texts(words: Seq<OcrWord>) -> Seq<Seq<char>>
    decreases words.len(),
{
    if words.len() == 0 {
        Seq::empty()
    } else if inappropriate_of(words.last().text@) {
        flagged_texts(words.drop_last()).push(words.last().text@)
    } else {
        flagged_texts(words.drop_last())
    }
}

/// The highlights of the flagged regions, in the same order.
pub open spec fn flagged_highlights(words: Seq<OcrWord>) -> Seq<HighlightRect>
    decreases words.len(),
{
    if words.len() == 0 {
        Seq::empty()
    } else if inappropriate_of(words.last().text@) {
        flagged_highlights(words.drop_last()).push(highlight_of(words.last()))
    } else {
        flagged_highlights(words.drop_last())
    }
}

/// The report posted to the log channel for a flagged image, together with
/// the rectangles to draw on the annotated copy.
pub struct ImageReport {
    pub title: String,
    pub color: u32,
    pub author_mention: String,
    pub channel_mention: String,
    pub author_name: String,
    pub channel_name: String,
    pub found_words: String,
    pub highlights: Vec<HighlightRect>,
}

/// What scanning the recognized words of one image concluded.
pub enum ImageScanOutcome {
    /// No recognized word was flagged; nothing is posted.
    Clean,
    /// Some words were flagged: the caller draws the highlights on a copy of
    /// the image and posts this one report with the annotated copy.
    Flagged(ImageReport),
}

/// Classifies the recognized word regions of one image. Clean exactly when
/// no region's text is inappropriate; otherwise the report lists the flagged
/// texts joined by commas and one highlight per flagged region.
pub fn scan_image_words(words: &Vec<OcrWord>, channel_id: u64, author_id: u64,
    author_name: &str, channel_name: &str) -> (o: ImageScanOutcome)
    requires
        forall|i: int| 0 <= i < words@.len() ==> (#[trigger] words@[i]).box_in_range(),
    ensures
        match o {
            ImageScanOutcome::Clean => flagged_texts(words@) =~= Seq::<
                Seq<char>,
            >::empty(),
            ImageScanOutcome::Flagged(rep) => {
                &&& flagged_texts(words@).len() > 0
                &&& rep.title@ == "**Possible blacklisted words in image detected!**"@
                &&& rep.color == 0xff0000u32
                &&& rep.author_mention@ == user_mention(author_id as nat)
                &&& rep.channel_mention@ == channel_mention(channel_id as nat)
                &&& rep.author_name@ == author_name@
                &&& rep.channel_name@ == channel_name@
                &&& rep.found_words@ == joined_with(flagged_texts(words@), ", "@)
                &&& rep.highlights@ =~= flagged_highlights(words@)
            },
        },
{
    let mut found: Vec<String> = Vec::new();
    let mut highlights: Vec<HighlightRect> = Vec::new();
    let mut i: usize = 0;
    proof {
        assert(words@.subrange(0, 0) =~= Seq::<OcrWord>::empty());
    }
    while i < words.len()
        invariant
            i <= words@.len(),
            forall|k: int| 0 <= k < words@.len() ==> (#[trigger] words@[k]).box_in_range(),
            found.deep_view() =~= flagged_texts(words@.subrange(0, i as int)),
            highlights@ =~= flagged_highlights(words@.subrange(0, i as int)),
        decreases words@.len() - i,
    {
        proof {
            assert(words@.subrange(0, i + 1).drop_last() =~= words@
                .subrange(0, i as int));
            assert(words@.subrange(0, i + 1).last() == words@[i as int]);
        }
        if text_is_inappropriate(words[i].text.as_str()) {
            let t = words[i].text.clone();
            found.push(t);
            highlights.push(HighlightRect {
                x: words[i].x - 3,
                y: words[i].y - 3,
                w: words[i].w + 6,
                h: words[i].h + 6,
            });
        }
        i += 1;
    }
    proof {
        assert(words@.subrange(0, words@.len() as int) =~= words@);
    }
    if found.len() == 0 {
        proof {
            if flagged_texts(words@).len() > 0 {
            }
        }
        ImageScanOutcome::Clean
    } else {
        let found_words = join_comma(&found);
        let mut title = String::new();
        title.append("**Possible blacklisted words in image detected!**");
        proof {
            assert(title@ =~= "**Possible blacklisted words in image detected!**"@);
        }
        let mut an = String::new();
        an.append(author_name);
        let mut cn = String::new();
        cn.append(channel_name);
        ImageScanOutcome::Flagged(ImageReport {
            title,
            color: 0xff0000,
            author_mention: format_user_mention(author_id),
            channel_mention: format_channel_mention(channel_id),
            author_name: an,
            channel_name: cn,
            found_words,
            highlights,
        })
    }
}

} // verus!
