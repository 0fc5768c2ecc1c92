//! Subtitle codec model: the decoded interchange representation, the
//! decoder/encoder plugin traits and their registries.
use vstd::prelude::*;

use crate::error::{CodecError, MediaError};
use crate::media::{MediaTime, Packet};

verus! {

/// Identifies ASS subtitle media; carries the format's style header text.
#[derive(Clone, Debug)]
pub struct AssCodec {
    pub header: String,
}

/// Identifies WebVTT subtitle media; carries the format's header text.
#[derive(Clone, Debug)]
pub struct WebVttCodec {
    pub header: String,
}

/// The concrete subtitle codec of a track.
#[derive(Clone, Debug)]
pub enum SubtitleCodec {
    Ass(AssCodec),
    WebVtt(WebVttCodec),
}

/// Information about a piece of subtitle media.
#[derive(Clone, Debug)]
pub struct SubtitleInfo {
    pub codec: SubtitleCodec,
}

impl SubtitleInfo {
    /// The style header text carried by the codec, whichever format it is.
    pub fn header(&self) -> (r: &String)
        ensures
            r@ == match self.codec {
                SubtitleCodec::Ass(ref a) => a.header@,
                SubtitleCodec::WebVtt(ref w) => w.header@,
            },
    {
        match &self.codec {
            SubtitleCodec::Ass(a) => &a.header,
            SubtitleCodec::WebVtt(w) => &w.header,
        }
    }
}

/// Placement of a subtitle cue within the frame.
#[derive(Clone, Copy, Debug, PartialEq, Eq, Structural)]
pub enum TextAlign {
    TopLeft,
    Top,
    TopRight,
    MidLeft,
    Mid,
    MidRight,
    BotLeft,
    Bot,
    BotRight,
}

/// The color role a fill or alpha value applies to.
#[derive(Clone, Copy, Debug, PartialEq, Eq, Structural)]
pub enum ColorType {
    Primary,
    Karaoke,
    Outline,
    Shadow,
}

/// An absolute cue position. The coordinates are carried as the raw bit
/// patterns of the producer's binary32 values; the core never interprets
/// them, it only hands them from decoder to encoder.
#[derive(Clone, Copy, Debug, PartialEq, Eq, Structural)]
pub struct TextPosition(pub u32, pub u32);

/// A fill color (packed RGB) for a color role.
#[derive(Clone, Copy, Debug, PartialEq, Eq, Structural)]
pub struct TextFill(pub ColorType, pub u32);

/// An alpha value for a color role.
#[derive(Clone, Copy, Debug, PartialEq, Eq, Structural)]
pub struct TextAlpha(pub ColorType, pub u8);

/// One piece of a cue's rich text. `Border` carries the raw bit pattern of
/// the producer's binary32 border width, uninterpreted by the core.
#[derive(Clone, Debug)]
pub enum TextPart {
    Text(String),
    Italic(bool),
    Underline(bool),
    Strikeout(bool),
    Border(u32),
    FontSize(u32),
    Position(TextPosition),
    Fill(TextFill),
    Alpha(TextAlpha),
    LineBreak,
    SmartBreak,
}

/// A decoded subtitle cue: the interchange value every subtitle encoder must
/// accept, regardless of which decoder produced it.
#[derive(Clone, Debug)]
pub struct TextCue {
    pub time: MediaTime,
    pub style: String,
    pub text: Vec<TextPart>,
}

/// A format-agnostic style record an encoder renders from; every field is
/// optional. Scale factors are carried as raw binary32 bit patterns,
/// uninterpreted by the core.
#[derive(Clone, Debug)]
pub struct TextStyle {
    pub font: Option<String>,
    pub primary_color: Option<u32>,
    pub secondary_color: Option<u32>,
    pub outline_color: Option<u32>,
    pub back_color: Option<u32>,
    pub bold: bool,
    pub italic: bool,
    pub underline: bool,
    pub strikeout: bool,
    pub scale_x: u32,
    pub scale_y: u32,
    pub spacing: i32,
    pub angle: i32,
    pub border_style: Option<i32>,
    pub outline: Option<i32>,
    pub shadow: Option<i32>,
    pub alignment: Option<i32>,
    pub margin_left: Option<i32>,
    pub margin_right: Option<i32>,
    pub margin_vertical: Option<i32>,
}

impl Default for TextStyle {
    /// A style with nothing set.
    fn default() -> (r: Self)
        ensures
            r.font is None,
            r.primary_color is None,
            r.secondary_color is None,
            r.outline_color is None,
            r.back_color is None,
            !r.bold && !r.italic && !r.underline && !r.strikeout,
            r.scale_x == 0 && r.scale_y == 0,
            r.spacing == 0 && r.angle == 0,
            r.border_style is None,
            r.outline is None,
            r.shadow is None,
            r.alignment is None,
            r.margin_left is None,
            r.margin_right is None,
            r.margin_vertical is None,
    {
        TextStyle {
            font: None,
            primary_color: None,
            secondary_color: None,
            outline_color: None,
            back_color: None,
            bold: false,
            italic: false,
            underline: false,
            strikeout: false,
            scale_x: 0,
            scale_y: 0,
            spacing: 0,
            angle: 0,
            border_style: None,
            outline: None,
            shadow: None,
            alignment: None,
            margin_left: None,
            margin_right: None,
            margin_vertical: None,
        }
    }
}

/// A style sheet: a mapping from style name to style record. A later entry
/// for a name shadows an earlier one.
pub struct SubtitleDescription {
    styles: Vec<(String, TextStyle)>,
}

impl SubtitleDescription {
    pub closed spec fn styles_view(&self) -> Seq<(String, TextStyle)> {
        self.styles@
    }

    /// Binds a style name to a record; a later binding wins over earlier ones.
    pub fn set_style(&mut self, name: String, style: TextStyle)
        ensures
            final(self).styles_view() == old(self).styles_view().insert(
                0,
                (name, style),
            ),
    {
        self.styles.insert(0, (name, style));
    }

    /// Looks the name up; the most recent binding for it wins.
    pub fn get_style(&self, name: &String) -> (r: Option<&TextStyle>)
        ensures
            match r {
                Some(style) => exists|i: int|
                    0 <= i < self.styles_view().len() && self.styles_view()[i].0@ == name@
                        && *style == self.styles_view()[i].1 && forall|j: int|
                        0 <= j < i ==> self.styles_view()[j].0@ != name@,
                None => forall|i: int|
                    0 <= i < self.styles_view().len() ==> self.styles_view()[i].0@ != name@,
            },
    {
        let mut k: usize = 0;
        while k < self.styles.len()
            invariant
                0 <= k <= self.styles.len(),
                forall|j: int| 0 <= j < k ==> self.styles_view()[j].0@ != name@,
            decreases self.styles.len() - k,
        {
            if self.styles[k].0.eq(name) {
                proof {
                    assert(self.styles_view()[k as int].0@ == name@);
                }
                return Some(&self.styles[k].1);
            }
            k += 1;
        }
        None
    }
}

impl Default for SubtitleDescription {
    /// An empty style sheet.
    fn default() -> (r: Self)
        ensures
            r.styles_view() == Seq::<(String, TextStyle)>::empty(),
    {
        let d = SubtitleDescription { styles: Vec::new() };
        proof {
            assert(d.styles_view() =~= Seq::<(String, TextStyle)>::empty());
        }
        d
    }
}

/// A subtitle decoder plugin: started from a track's codec description, fed
/// packets, and drained of fully decoded cues. A decoder may buffer: zero,
/// one, or many outputs per input are all valid. `buffered` bounds how many
/// cues a drain can still yield, so draining terminates.
pub trait SubtitleDecoder: Send + Sync {
    spec fn buffered(&self) -> nat;

    /// Initializes the decoder from a track's codec description.
    fn start(&mut self, info: &SubtitleInfo) -> (r: Result<(), CodecError>);

    /// Accepts one input packet, possibly buffering output.
    fn feed(&mut self, packet: Packet) -> (r: Result<(), CodecError>);

    /// Drains one buffered cue, or reports that none is ready.
    fn receive(&mut self) -> (r: Option<TextCue>)
        ensures
            r is Some ==> final(self).buffered() < old(self).buffered(),
    ;
}

/// A subtitle encoder plugin: started from a style description (returning
/// the codec metadata of the output track), fed decoded cues, and drained
/// of encoded packets. `buffered` bounds a drain, as for decoders.
pub trait SubtitleEncoder: Send + Sync {
    spec fn buffered(&self) -> nat;

    /// Initializes the encoder and yields the output track's codec metadata.
    fn start(&mut self, desc: SubtitleDescription) -> (r: Result<SubtitleInfo, CodecError>);

    /// Accepts one decoded cue, possibly buffering output.
    fn feed(&mut self, cue: TextCue) -> (r: Result<(), CodecError>);

    /// Drains one encoded packet, or reports that none is ready.
    fn receive(&mut self) -> (r: Option<Packet>)
        ensures
            r is Some ==> final(self).buffered() < old(self).buffered(),
    ;
}

/// An owned decoder instance, boxed for dynamic dispatch and wrapped so
/// factories can hand it across the registry boundary.
pub struct DecoderInstance {
    pub decoder: Box<dyn SubtitleDecoder>,
}

/// An owned encoder instance, boxed for dynamic dispatch and wrapped so
/// factories can hand it across the registry boundary.
pub struct EncoderInstance {
    pub encoder: Box<dyn SubtitleEncoder>,
}

/// Builds fresh decoder instances for one registered codec.
pub trait SubtitleDecoderFactory: Send + Sync {
    fn create(&self) -> DecoderInstance;
}

/// Builds fresh encoder instances for one registered codec.
pub trait SubtitleEncoderFactory: Send + Sync {
    fn create(&self) -> EncoderInstance;
}

/// An immutable registry descriptor: a stable codec name paired with a
/// factory producing fresh decoder instances.
pub struct SubtitleDecoderMetadata {
    pub name: String,
    pub factory: Box<dyn SubtitleDecoderFactory>,
}

impl SubtitleDecoderMetadata {
    pub fn new(name: String, factory: Box<dyn SubtitleDecoderFactory>) -> (r: Self)
        ensures
            r.name == name,
    {
        SubtitleDecoderMetadata { name, factory }
    }

    /// A fresh instance of the registered decoder.
    pub fn create(&self) -> (r: Box<dyn SubtitleDecoder>) {
        self.factory.create().decoder
    }
}

/// An immutable registry descriptor: a stable codec name paired with a
/// factory producing fresh encoder instances.
pub struct SubtitleEncoderMetadata {
    pub name: String,
    pub factory: Box<dyn SubtitleEncoderFactory>,
}

impl SubtitleEncoderMetadata {
    pub fn new(name: String, factory: Box<dyn SubtitleEncoderFactory>) -> (r: Self)
        ensures
            r.name == name,
    {
        SubtitleEncoderMetadata { name, factory }
    }

    /// A fresh instance of the registered encoder.
    pub fn create(&self) -> (r: Box<dyn SubtitleEncoder>) {
        self.factory.create().encoder
    }
}

/// The process-wide decoder collection: populated by the bootstrap code
/// calling `register` once per compiled-in decoder before any lookup, then
/// treated as read-only.
pub struct DecoderRegistry {
    entries: Vec<SubtitleDecoderMetadata>,
}

impl DecoderRegistry {
    pub closed spec fn entries_view(&self) -> Seq<SubtitleDecoderMetadata> {
        self.entries@
    }

    pub fn new() -> (r: Self)
        ensures
            r.entries_view() == Seq::<SubtitleDecoderMetadata>::empty(),
    {
        let r = DecoderRegistry { entries: Vec::new() };
        proof {
            assert(r.entries_view() =~= Seq::<SubtitleDecoderMetadata>::empty());
        }
        r
    }

    /// Appends a descriptor; nothing is ever unregistered or overridden.
    pub fn register(&mut self, meta: SubtitleDecoderMetadata)
        ensures
            final(self).entries_view() == old(self).entries_view().push(meta),
    {
        self.entries.push(meta);
    }

    /// Linear scan for the first descriptor with the requested name.
    pub fn find(&self, name: &String) -> (r: Option<&SubtitleDecoderMetadata>)
        ensures
            match r {
                Some(m) => exists|i: int|
                    0 <= i < self.entries_view().len() && *m == self.entries_view()[i]
                        && m.name@ == name@ && forall|j: int|
                        0 <= j < i ==> self.entries_view()[j].name@ != name@,
                None => forall|i: int|
                    0 <= i < self.entries_view().len() ==> self.entries_view()[i].name@ != name@,
            },
    {
        let mut k: usize = 0;
        while k < self.entries.len()
            invariant
                k <= self.entries_view().len(),
                forall|j: int| 0 <= j < k ==> self.entries_view()[j].name@ != name@,
            decreases self.entries_view().len() - k,
        {
            if self.entries[k].name.eq(name) {
                proof {
                    assert(self.entries_view()[k as int].name@ == name@);
                }
                return Some(&self.entries[k]);
            }
            k += 1;
        }
        None
    }
}

/// The process-wide encoder collection, handled exactly as the decoder one.
pub struct EncoderRegistry {
    entries: Vec<SubtitleEncoderMetadata>,
}

impl EncoderRegistry {
    pub closed spec fn entries_view(&self) -> Seq<SubtitleEncoderMetadata> {
        self.entries@
    }

    pub fn new() -> (r: Self)
        ensures
            r.entries_view() == Seq::<SubtitleEncoderMetadata>::empty(),
    {
        let r = EncoderRegistry { entries: Vec::new() };
        proof {
            assert(r.entries_view() =~= Seq::<SubtitleEncoderMetadata>::empty());
        }
        r
    }

    /// Appends a descriptor; nothing is ever unregistered or overridden.
    pub fn register(&mut self, meta: SubtitleEncoderMetadata)
        ensures
            final(self).entries_view() == old(self).entries_view().push(meta),
    {
        self.entries.push(meta);
    }

    /// Linear scan for the first descriptor with the requested name.
    pub fn find(&self, name: &String) -> (r: Option<&SubtitleEncoderMetadata>)
        ensures
            match r {
                Some(m) => exists|i: int|
                    0 <= i < self.entries_view().len() && *m == self.entries_view()[i]
                        && m.name@ == name@ && forall|j: int|
                        0 <= j < i ==> self.entries_view()[j].name@ != name@,
                None => forall|i: int|
                    0 <= i < self.entries_view().len() ==> self.entries_view()[i].name@ != name@,
            },
    {
        let mut k: usize = 0;
        while k < self.entries.len()
            invariant
                k <= self.entries_view().len(),
                forall|j: int| 0 <= j < k ==> self.entries_view()[j].name@ != name@,
            decreases self.entries_view().len() - k,
        {
            if self.entries[k].name.eq(name) {
                proof {
                    assert(self.entries_view()[k as int].name@ == name@);
                }
                return Some(&self.entries[k]);
            }
            k += 1;
        }
        None
    }
}

/// Looks the track's codec name up in the registry, builds a fresh decoder
/// and starts it from the track's codec description. Fails with `NoDecoder`
/// exactly when no registered name matches, and with `Codec` when the
/// decoder itself refuses to start.
pub fn find_decoder_for_track(registry: &DecoderRegistry, track: &crate::media::Track) -> (r:
    Result<Box<dyn SubtitleDecoder>, MediaError>)
    ensures
        (forall|i: int|
            0 <= i < registry.entries_view().len() ==> registry.entries_view()[i].name@
                != track.info.name@) ==> (r matches Err(MediaError::NoDecoder(n)) && n@
            == track.info.name@),
        (exists|i: int|
            0 <= i < registry.entries_view().len() && registry.entries_view()[i].name@
                == track.info.name@) ==> (r is Ok || r matches Err(MediaError::Codec(_))),
{
    match registry.find(&track.info.name) {
        None => Err(MediaError::NoDecoder(track.info.name.clone())),
        Some(meta) => {
            let mut decoder = meta.create();
            match decoder.start(&track.info.subtitle) {
                Ok(()) => Ok(decoder),
                Err(e) => Err(MediaError::Codec(e)),
            }
        },
    }
}

/// Looks the requested name up in the registry, builds a fresh encoder and
/// starts it from an empty style description. Fails with `NoEncoder` exactly
/// when no registered name matches, and with `Codec` when the encoder itself
/// refuses to start.
pub fn find_encoder_with_params(
    registry: &EncoderRegistry,
    name: &String,
    info: &crate::media::MediaInfo,
) -> (r: Result<Box<dyn SubtitleEncoder>, MediaError>)
    ensures
        (forall|i: int|
            0 <= i < registry.entries_view().len() ==> registry.entries_view()[i].name@ != name@)
            ==> (r matches Err(MediaError::NoEncoder(n)) && n@ == name@),
        (exists|i: int|
            0 <= i < registry.entries_view().len() && registry.entries_view()[i].name@ == name@)
            ==> (r is Ok || r matches Err(MediaError::Codec(_))),
{
    let _ = info;
    match registry.find(name) {
        None => Err(MediaError::NoEncoder(name.clone())),
        Some(meta) => {
            let mut encoder = meta.create();
            match encoder.start(SubtitleDescription::default()) {
                Ok(_started_info) => Ok(encoder),
                Err(e) => Err(MediaError::Codec(e)),
            }
        },
    }
}

/// A scripted decoder: each accepted packet queues clones of a fixed set of
/// cues, so tests and reference pipelines can replay any decode pattern,
/// including none-per-packet and many-per-packet. Cues drain in first-in,
/// first-out order. The contracts pin how the queue grows and that nothing
/// already queued moves; the cloned values themselves lie beyond a derived
/// clone's specification.
pub struct ScriptedDecoder {
    /// Cues each fed packet appends (cloned) to the pending queue.
    pub per_packet: Vec<TextCue>,
    /// Decoded cues not yet drained.
    pub pending: Vec<TextCue>,
    /// Refuse to start.
    pub fail_start: bool,
    /// Refuse every packet.
    pub fail_feed: bool,
}

impl SubtitleDecoder for ScriptedDecoder {
    open spec fn buffered(&self) -> nat {
        self.pending@.len()
    }

    fn start(&mut self, info: &SubtitleInfo) -> (r: Result<(), CodecError>)
        ensures
            r is Ok <==> !old(self).fail_start,
    {
        if self.fail_start {
            Err(CodecError { message: String::from_str("decoder refused to start") })
        } else {
            Ok(())
        }
    }

    fn feed(&mut self, packet: Packet) -> (r: Result<(), CodecError>)
        ensures
            r is Ok <==> !old(self).fail_feed,
            old(self).fail_feed ==> *final(self) == *old(self),
            !old(self).fail_feed ==> final(self).pending@.len() == old(self).pending@.len() + old(self).per_packet@.len() && (forall|j: int|
                0 <= j < old(self).pending@.len() ==> final(self).pending@[j] == old(self).pending@[j]) && final(self).per_packet == old(self).per_packet && final(self).fail_start == old(self).fail_start && final(self).fail_feed == old(self).fail_feed,
    {
        if self.fail_feed {
            return Err(CodecError { message: String::from_str("decoder broke") });
        }
        let mut k: usize = 0;
        while k < self.per_packet.len()
            invariant
                k <= self.per_packet@.len(),
                self.per_packet == old(self).per_packet,
                self.fail_start == old(self).fail_start,
                self.fail_feed == old(self).fail_feed,
                self.pending@.len() == old(self).pending@.len() + k,
                forall|j: int|
                    0 <= j < old(self).pending@.len() ==> self.pending@[j] == old(self).pending@[j],
            decreases self.per_packet@.len() - k,
        {
            let cue = self.per_packet[k].clone();
            self.pending.push(cue);
            k += 1;
        }
        Ok(())
    }

    fn receive(&mut self) -> (r: Option<TextCue>)
        ensures
            r is Some ==> final(self).buffered() < old(self).buffered(),
            r is Some <==> old(self).pending@.len() > 0,
            r matches Some(c) ==> c == old(self).pending@[0] && final(self).pending@ == old(self).pending@.drop_first(),
    {
        if self.pending.len() == 0 {
            None
        } else {
            Some(self.pending.remove(0))
        }
    }
}

/// A scripted encoder: each accepted cue queues clones of a fixed set of
/// packets, so tests and reference pipelines can replay any encode pattern.
/// Packets drain in first-in, first-out order, with the same contract shape
/// as the scripted decoder.
pub struct ScriptedEncoder {
    /// The codec metadata `start` hands back.
    pub info: SubtitleInfo,
    /// Packets each fed cue appends (cloned) to the pending queue.
    pub per_cue: Vec<Packet>,
    /// Encoded packets not yet drained.
    pub pending: Vec<Packet>,
    /// Refuse to start.
    pub fail_start: bool,
    /// Refuse every cue.
    pub fail_feed: bool,
}

impl SubtitleEncoder for ScriptedEncoder {
    open spec fn buffered(&self) -> nat {
        self.pending@.len()
    }

    fn start(&mut self, desc: SubtitleDescription) -> (r: Result<SubtitleInfo, CodecError>)
        ensures
            r is Ok <==> !old(self).fail_start,
    {
        if self.fail_start {
            Err(CodecError { message: String::from_str("encoder refused to start") })
        } else {
            Ok(self.info.clone())
        }
    }

    fn feed(&mut self, cue: TextCue) -> (r: Result<(), CodecError>)
        ensures
            r is Ok <==> !old(self).fail_feed,
            old(self).fail_feed ==> *final(self) == *old(self),
            !old(self).fail_feed ==> final(self).pending@.len() == old(self).pending@.len() + old(self).per_cue@.len() && (forall|j: int|
                0 <= j < old(self).pending@.len() ==> final(self).pending@[j] == old(self).pending@[j]) && final(self).per_cue == old(self).per_cue && final(self).info
                == old(self).info && final(self).fail_start == old(self).fail_start && final(self).fail_feed == old(self).fail_feed,
    {
        if self.fail_feed {
            return Err(CodecError { message: String::from_str("encoder broke") });
        }
        let mut k: usize = 0;
        while k < self.per_cue.len()
            invariant
                k <= self.per_cue@.len(),
                self.per_cue == old(self).per_cue,
                self.info == old(self).info,
                self.fail_start == old(self).fail_start,
                self.fail_feed == old(self).fail_feed,
                self.pending@.len() == old(self).pending@.len() + k,
                forall|j: int|
                    0 <= j < old(self).pending@.len() ==> self.pending@[j] == old(self).pending@[j],
            decreases self.per_cue@.len() - k,
        {
            let pkt = self.per_cue[k].clone();
            self.pending.push(pkt);
            k += 1;
        }
        Ok(())
    }

    fn receive(&mut self) -> (r: Option<Packet>)
        ensures
            r is Some ==> final(self).buffered() < old(self).buffered(),
            r is Some <==> old(self).pending@.len() > 0,
            r matches Some(p) ==> p == old(self).pending@[0] && final(self).pending@ == old(self).pending@.drop_first(),
    {
        if self.pending.len() == 0 {
            None
        } else {
            Some(self.pending.remove(0))
        }
    }
}

} // verus!
