//! The keywords of the grammars, byte by byte.

use vstd::prelude::*;
use vstd::string::*;
use vstd::utf8::*;
use crate::scan::Pattern;
use crate::token::Kind;

verus! {

/// The bytes of the text that the pattern of `kind` holds; none where it
/// holds no text.
pub open spec fn keyword(kind: Kind) -> Seq<u8> {
    match kind.pattern() {
        Pattern::Literal(text) => text.spec_bytes(),
        Pattern::Prefixed(text) => text.spec_bytes(),
        Pattern::Named(text) => text.spec_bytes(),
        _ => Seq::empty(),
    }
}

/// The same bytes, spelled out.
pub open spec fn spelled(kind: Kind) -> Seq<u8> {
    match kind {
        // #EXTM3U
        Kind::ExtM3U => seq![0x23u8, 0x45, 0x58, 0x54, 0x4d, 0x33, 0x55],
        // #EXT-X-ENDLIST
        Kind::EndList => seq![
            0x23u8, 0x45, 0x58, 0x54, 0x2d, 0x58, 0x2d, 0x45, 0x4e, 0x44, 0x4c, 0x49, 0x53,
            0x54,
        ],
        // #EXT-X-TARGETDURATION
        Kind::TargetDuration => seq![
            0x23u8, 0x45, 0x58, 0x54, 0x2d, 0x58, 0x2d, 0x54, 0x41, 0x52, 0x47, 0x45, 0x54,
            0x44, 0x55, 0x52, 0x41, 0x54, 0x49, 0x4f, 0x4e,
        ],
        // #EXT-X-VERSION
        Kind::Version => seq![
            0x23u8, 0x45, 0x58, 0x54, 0x2d, 0x58, 0x2d, 0x56, 0x45, 0x52, 0x53, 0x49, 0x4f,
            0x4e,
        ],
        // #EXT-X-MEDIA-SEQUENCE
        Kind::MediaSequence => seq![
            0x23u8, 0x45, 0x58, 0x54, 0x2d, 0x58, 0x2d, 0x4d, 0x45, 0x44, 0x49, 0x41, 0x2d,
            0x53, 0x45, 0x51, 0x55, 0x45, 0x4e, 0x43, 0x45,
        ],
        // #EXT-X-KEY
        Kind::Key => seq![0x23u8, 0x45, 0x58, 0x54, 0x2d, 0x58, 0x2d, 0x4b, 0x45, 0x59],
        // #EXT-X-ALLOW-CACHE
        Kind::AllowCache => seq![
            0x23u8, 0x45, 0x58, 0x54, 0x2d, 0x58, 0x2d, 0x41, 0x4c, 0x4c, 0x4f, 0x57, 0x2d,
            0x43, 0x41, 0x43, 0x48, 0x45,
        ],
        // #EXT-X-PLAYLIST-TYPE
        Kind::PlaylistType => seq![
            0x23u8, 0x45, 0x58, 0x54, 0x2d, 0x58, 0x2d, 0x50, 0x4c, 0x41, 0x59, 0x4c, 0x49,
            0x53, 0x54, 0x2d, 0x54, 0x59, 0x50, 0x45,
        ],
        // #EXT-X-I-FRAMES-ONLY
        Kind::IFramesOnly => seq![
            0x23u8, 0x45, 0x58, 0x54, 0x2d, 0x58, 0x2d, 0x49, 0x2d, 0x46, 0x52, 0x41, 0x4d,
            0x45, 0x53, 0x2d, 0x4f, 0x4e, 0x4c, 0x59,
        ],
        // #EXTINF
        Kind::Inf => seq![0x23u8, 0x45, 0x58, 0x54, 0x49, 0x4e, 0x46],
        // #EXT-X-BYTERANGE
        Kind::ByteRange => seq![
            0x23u8, 0x45, 0x58, 0x54, 0x2d, 0x58, 0x2d, 0x42, 0x59, 0x54, 0x45, 0x52, 0x41,
            0x4e, 0x47, 0x45,
        ],
        // #EXT-X-STREAM-INF
        Kind::StreamInf => seq![
            0x23u8, 0x45, 0x58, 0x54, 0x2d, 0x58, 0x2d, 0x53, 0x54, 0x52, 0x45, 0x41, 0x4d,
            0x2d, 0x49, 0x4e, 0x46,
        ],
        // #EXT-X-I-FRAME-STREAM-INF
        Kind::IFrameStreamInf => seq![
            0x23u8, 0x45, 0x58, 0x54, 0x2d, 0x58, 0x2d, 0x49, 0x2d, 0x46, 0x52, 0x41, 0x4d,
            0x45, 0x2d, 0x53, 0x54, 0x52, 0x45, 0x41, 0x4d, 0x2d, 0x49, 0x4e, 0x46,
        ],
        // METHOD
        Kind::Method => seq![0x4du8, 0x45, 0x54, 0x48, 0x4f, 0x44],
        // URI
        Kind::Uri => seq![0x55u8, 0x52, 0x49],
        // PROGRAM-ID
        Kind::ProgramId => seq![0x50u8, 0x52, 0x4f, 0x47, 0x52, 0x41, 0x4d, 0x2d, 0x49, 0x44],
        // BANDWIDTH
        Kind::Bandwidth => seq![0x42u8, 0x41, 0x4e, 0x44, 0x57, 0x49, 0x44, 0x54, 0x48],
        // RESOLUTION
        Kind::Resolution => seq![0x52u8, 0x45, 0x53, 0x4f, 0x4c, 0x55, 0x54, 0x49, 0x4f, 0x4e],
        // FRAME-RATE
        Kind::FrameRate => seq![0x46u8, 0x52, 0x41, 0x4d, 0x45, 0x2d, 0x52, 0x41, 0x54, 0x45],
        // CODECS
        Kind::Codecs => seq![0x43u8, 0x4f, 0x44, 0x45, 0x43, 0x53],
        // =
        Kind::Equal => seq![0x3du8],
        // ,
        Kind::Comma => seq![0x2cu8],
        // :
        Kind::Colon => seq![0x3au8],
        // AES-128
        Kind::Aes128 => seq![0x41u8, 0x45, 0x53, 0x2d, 0x31, 0x32, 0x38],
        // SAMPLE-AES
        Kind::SampleAes => seq![0x53u8, 0x41, 0x4d, 0x50, 0x4c, 0x45, 0x2d, 0x41, 0x45, 0x53],
        // NONE
        Kind::Unencrypted => seq![0x4eu8, 0x4f, 0x4e, 0x45],
        // YES
        Kind::Yes => seq![0x59u8, 0x45, 0x53],
        // NO
        Kind::No => seq![0x4eu8, 0x4f],
        // VOD
        Kind::Vod => seq![0x56u8, 0x4f, 0x44],
        // EVENT
        Kind::Event => seq![0x45u8, 0x56, 0x45, 0x4e, 0x54],
        // http://
        Kind::HttpUri => seq![0x68u8, 0x74, 0x74, 0x70, 0x3a, 0x2f, 0x2f],
        // https://
        Kind::HttpsUri => seq![0x68u8, 0x74, 0x74, 0x70, 0x73, 0x3a, 0x2f, 0x2f],
        // .m3u8
        Kind::PlaylistFile => seq![0x2eu8, 0x6d, 0x33, 0x75, 0x38],
        _ => Seq::empty(),
    }
}

/// The bytes of a text of ASCII characters are its characters.
proof fn lemma_ascii(text: &str)
    requires
        is_ascii_chars(text@),
    ensures
        text.spec_bytes().len() == text@.len(),
        forall|i: int| 0 <= i < text@.len() ==> #[trigger] text.spec_bytes()[i] == text@[i] as u8,
{
    is_ascii_chars_encode_utf8(text@);
}

proof fn lemma_spelled_extm3u()
    ensures
        keyword(Kind::ExtM3U) == spelled(Kind::ExtM3U),
{
    reveal_strlit("#EXTM3U");
    lemma_ascii("#EXTM3U");
    assert(keyword(Kind::ExtM3U) =~= spelled(Kind::ExtM3U));
}

proof fn lemma_spelled_endlist()
    ensures
        keyword(Kind::EndList) == spelled(Kind::EndList),
{
    reveal_strlit("#EXT-X-ENDLIST");
    lemma_ascii("#EXT-X-ENDLIST");
    assert(keyword(Kind::EndList) =~= spelled(Kind::EndList));
}

proof fn lemma_spelled_targetduration()
    ensures
        keyword(Kind::TargetDuration) == spelled(Kind::TargetDuration),
{
    reveal_strlit("#EXT-X-TARGETDURATION");
    lemma_ascii("#EXT-X-TARGETDURATION");
    assert(keyword(Kind::TargetDuration) =~= spelled(Kind::TargetDuration));
}

proof fn lemma_spelled_version()
    ensures
        keyword(Kind::Version) == spelled(Kind::Version),
{
    reveal_strlit("#EXT-X-VERSION");
    lemma_ascii("#EXT-X-VERSION");
    assert(keyword(Kind::Version) =~= spelled(Kind::Version));
}

proof fn lemma_spelled_mediasequence()
    ensures
        keyword(Kind::MediaSequence) == spelled(Kind::MediaSequence),
{
    reveal_strlit("#EXT-X-MEDIA-SEQUENCE");
    lemma_ascii("#EXT-X-MEDIA-SEQUENCE");
    assert(keyword(Kind::MediaSequence) =~= spelled(Kind::MediaSequence));
}

proof fn lemma_spelled_key()
    ensures
        keyword(Kind::Key) == spelled(Kind::Key),
{
    reveal_strlit("#EXT-X-KEY");
    lemma_ascii("#EXT-X-KEY");
    assert(keyword(Kind::Key) =~= spelled(Kind::Key));
}

proof fn lemma_spelled_allowcache()
    ensures
        keyword(Kind::AllowCache) == spelled(Kind::AllowCache),
{
    reveal_strlit("#EXT-X-ALLOW-CACHE");
    lemma_ascii("#EXT-X-ALLOW-CACHE");
    assert(keyword(Kind::AllowCache) =~= spelled(Kind::AllowCache));
}

proof fn lemma_spelled_playlisttype()
    ensures
        keyword(Kind::PlaylistType) == spelled(Kind::PlaylistType),
{
    reveal_strlit("#EXT-X-PLAYLIST-TYPE");
    lemma_ascii("#EXT-X-PLAYLIST-TYPE");
    assert(keyword(Kind::PlaylistType) =~= spelled(Kind::PlaylistType));
}

proof fn lemma_spelled_iframesonly()
    ensures
        keyword(Kind::IFramesOnly) == spelled(Kind::IFramesOnly),
{
    reveal_strlit("#EXT-X-I-FRAMES-ONLY");
    lemma_ascii("#EXT-X-I-FRAMES-ONLY");
    assert(keyword(Kind::IFramesOnly) =~= spelled(Kind::IFramesOnly));
}

proof fn lemma_spelled_inf()
    ensures
        keyword(Kind::Inf) == spelled(Kind::Inf),
{
    reveal_strlit("#EXTINF");
    lemma_ascii("#EXTINF");
    assert(keyword(Kind::Inf) =~= spelled(Kind::Inf));
}

proof fn lemma_spelled_byterange()
    ensures
        keyword(Kind::ByteRange) == spelled(Kind::ByteRange),
{
    reveal_strlit("#EXT-X-BYTERANGE");
    lemma_ascii("#EXT-X-BYTERANGE");
    assert(keyword(Kind::ByteRange) =~= spelled(Kind::ByteRange));
}

proof fn lemma_spelled_streaminf()
    ensures
        keyword(Kind::StreamInf) == spelled(Kind::StreamInf),
{
    reveal_strlit("#EXT-X-STREAM-INF");
    lemma_ascii("#EXT-X-STREAM-INF");
    assert(keyword(Kind::StreamInf) =~= spelled(Kind::StreamInf));
}

proof fn lemma_spelled_iframestreaminf()
    ensures
        keyword(Kind::IFrameStreamInf) == spelled(Kind::IFrameStreamInf),
{
    reveal_strlit("#EXT-X-I-FRAME-STREAM-INF");
    lemma_ascii("#EXT-X-I-FRAME-STREAM-INF");
    assert(keyword(Kind::IFrameStreamInf) =~= spelled(Kind::IFrameStreamInf));
}

proof fn lemma_spelled_method()
    ensures
        keyword(Kind::Method) == spelled(Kind::Method),
{
    reveal_strlit("METHOD");
    lemma_ascii("METHOD");
    assert(keyword(Kind::Method) =~= spelled(Kind::Method));
}

proof fn lemma_spelled_uri()
    ensures
        keyword(Kind::Uri) == spelled(Kind::Uri),
{
    reveal_strlit("URI");
    lemma_ascii("URI");
    assert(keyword(Kind::Uri) =~= spelled(Kind::Uri));
}

proof fn lemma_spelled_programid()
    ensures
        keyword(Kind::ProgramId) == spelled(Kind::ProgramId),
{
    reveal_strlit("PROGRAM-ID");
    lemma_ascii("PROGRAM-ID");
    assert(keyword(Kind::ProgramId) =~= spelled(Kind::ProgramId));
}

proof fn lemma_spelled_bandwidth()
    ensures
        keyword(Kind::Bandwidth) == spelled(Kind::Bandwidth),
{
    reveal_strlit("BANDWIDTH");
    lemma_ascii("BANDWIDTH");
    assert(keyword(Kind::Bandwidth) =~= spelled(Kind::Bandwidth));
}

proof fn lemma_spelled_resolution()
    ensures
        keyword(Kind::Resolution) == spelled(Kind::Resolution),
{
    reveal_strlit("RESOLUTION");
    lemma_ascii("RESOLUTION");
    assert(keyword(Kind::Resolution) =~= spelled(Kind::Resolution));
}

proof fn lemma_spelled_framerate()
    ensures
        keyword(Kind::FrameRate) == spelled(Kind::FrameRate),
{
    reveal_strlit("FRAME-RATE");
    lemma_ascii("FRAME-RATE");
    assert(keyword(Kind::FrameRate) =~= spelled(Kind::FrameRate));
}

proof fn lemma_spelled_codecs()
    ensures
        keyword(Kind::Codecs) == spelled(Kind::Codecs),
{
    reveal_strlit("CODECS");
    lemma_ascii("CODECS");
    assert(keyword(Kind::Codecs) =~= spelled(Kind::Codecs));
}

proof fn lemma_spelled_equal()
    ensures
        keyword(Kind::Equal) == spelled(Kind::Equal),
{
    reveal_strlit("=");
    lemma_ascii("=");
    assert(keyword(Kind::Equal) =~= spelled(Kind::Equal));
}

proof fn lemma_spelled_comma()
    ensures
        keyword(Kind::Comma) == spelled(Kind::Comma),
{
    reveal_strlit(",");
    lemma_ascii(",");
    assert(keyword(Kind::Comma) =~= spelled(Kind::Comma));
}

proof fn lemma_spelled_colon()
    ensures
        keyword(Kind::Colon) == spelled(Kind::Colon),
{
    reveal_strlit(":");
    lemma_ascii(":");
    assert(keyword(Kind::Colon) =~= spelled(Kind::Colon));
}

proof fn lemma_spelled_aes128()
    ensures
        keyword(Kind::Aes128) == spelled(Kind::Aes128),
{
    reveal_strlit("AES-128");
    lemma_ascii("AES-128");
    assert(keyword(Kind::Aes128) =~= spelled(Kind::Aes128));
}

proof fn lemma_spelled_sampleaes()
    ensures
        keyword(Kind::SampleAes) == spelled(Kind::SampleAes),
{
    reveal_strlit("SAMPLE-AES");
    lemma_ascii("SAMPLE-AES");
    assert(keyword(Kind::SampleAes) =~= spelled(Kind::SampleAes));
}

proof fn lemma_spelled_unencrypted()
    ensures
        keyword(Kind::Unencrypted) == spelled(Kind::Unencrypted),
{
    reveal_strlit("NONE");
    lemma_ascii("NONE");
    assert(keyword(Kind::Unencrypted) =~= spelled(Kind::Unencrypted));
}

proof fn lemma_spelled_yes()
    ensures
        keyword(Kind::Yes) == spelled(Kind::Yes),
{
    reveal_strlit("YES");
    lemma_ascii("YES");
    assert(keyword(Kind::Yes) =~= spelled(Kind::Yes));
}

proof fn lemma_spelled_no()
    ensures
        keyword(Kind::No) == spelled(Kind::No),
{
    reveal_strlit("NO");
    lemma_ascii("NO");
    assert(keyword(Kind::No) =~= spelled(Kind::No));
}

proof fn lemma_spelled_vod()
    ensures
        keyword(Kind::Vod) == spelled(Kind::Vod),
{
    reveal_strlit("VOD");
    lemma_ascii("VOD");
    assert(keyword(Kind::Vod) =~= spelled(Kind::Vod));
}

proof fn lemma_spelled_event()
    ensures
        keyword(Kind::Event) == spelled(Kind::Event),
{
    reveal_strlit("EVENT");
    lemma_ascii("EVENT");
    assert(keyword(Kind::Event) =~= spelled(Kind::Event));
}

proof fn lemma_spelled_httpuri()
    ensures
        keyword(Kind::HttpUri) == spelled(Kind::HttpUri),
{
    reveal_strlit("http://");
    lemma_ascii("http://");
    assert(keyword(Kind::HttpUri) =~= spelled(Kind::HttpUri));
}

proof fn lemma_spelled_httpsuri()
    ensures
        keyword(Kind::HttpsUri) == spelled(Kind::HttpsUri),
{
    reveal_strlit("https://");
    lemma_ascii("https://");
    assert(keyword(Kind::HttpsUri) =~= spelled(Kind::HttpsUri));
}

proof fn lemma_spelled_playlistfile()
    ensures
        keyword(Kind::PlaylistFile) == spelled(Kind::PlaylistFile),
{
    reveal_strlit(".m3u8");
    lemma_ascii(".m3u8");
    assert(keyword(Kind::PlaylistFile) =~= spelled(Kind::PlaylistFile));
}

/// Each keyword is spelled as the table says.
pub proof fn lemma_spelled(kind: Kind)
    ensures
        keyword(kind) == spelled(kind),
{
    match kind {
        Kind::ExtM3U => lemma_spelled_extm3u(),
        Kind::EndList => lemma_spelled_endlist(),
        Kind::TargetDuration => lemma_spelled_targetduration(),
        Kind::Version => lemma_spelled_version(),
        Kind::MediaSequence => lemma_spelled_mediasequence(),
        Kind::Key => lemma_spelled_key(),
        Kind::AllowCache => lemma_spelled_allowcache(),
        Kind::PlaylistType => lemma_spelled_playlisttype(),
        Kind::IFramesOnly => lemma_spelled_iframesonly(),
        Kind::Inf => lemma_spelled_inf(),
        Kind::ByteRange => lemma_spelled_byterange(),
        Kind::StreamInf => lemma_spelled_streaminf(),
        Kind::IFrameStreamInf => lemma_spelled_iframestreaminf(),
        Kind::Method => lemma_spelled_method(),
        Kind::Uri => lemma_spelled_uri(),
        Kind::ProgramId => lemma_spelled_programid(),
        Kind::Bandwidth => lemma_spelled_bandwidth(),
        Kind::Resolution => lemma_spelled_resolution(),
        Kind::FrameRate => lemma_spelled_framerate(),
        Kind::Codecs => lemma_spelled_codecs(),
        Kind::Equal => lemma_spelled_equal(),
        Kind::Comma => lemma_spelled_comma(),
        Kind::Colon => lemma_spelled_colon(),
        Kind::Aes128 => lemma_spelled_aes128(),
        Kind::SampleAes => lemma_spelled_sampleaes(),
        Kind::Unencrypted => lemma_spelled_unencrypted(),
        Kind::Yes => lemma_spelled_yes(),
        Kind::No => lemma_spelled_no(),
        Kind::Vod => lemma_spelled_vod(),
        Kind::Event => lemma_spelled_event(),
        Kind::HttpUri => lemma_spelled_httpuri(),
        Kind::HttpsUri => lemma_spelled_httpsuri(),
        Kind::PlaylistFile => lemma_spelled_playlistfile(),
        _ => {},
    }
}

} // verus!
