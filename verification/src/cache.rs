//! The font instance cache.
//!
//! The compositor hands out a font key when a font is registered with it,
//! and a font instance key when a font is registered at a size. Registering
//! is one-way: what was registered twice stays registered twice. So every
//! registration is preceded by a lookup here, and followed by a note of the
//! key that the compositor gave.

use crate::font::FontData;
use crate::font_db::{FontDescriptor, FontDescriptorView};
use crate::scale::Au;
use vstd::prelude::*;

verus! {

/// The compositor's handle of a registered font: a namespace and a number.
#[derive(Clone, Copy, Debug, PartialEq, Eq, Structural, Hash)]
pub struct FontKey(pub u32, pub u32);

/// The compositor's handle of a font at a size.
#[derive(Clone, Copy, Debug, PartialEq, Eq, Structural, Hash)]
pub struct FontInstanceKey(pub u32, pub u32);

/// A colour of four bytes.
#[derive(Clone, Copy, Debug, PartialEq, Eq, Structural, Hash)]
pub struct ColorU {
    pub r: u8,
    pub g: u8,
    pub b: u8,
    pub a: u8,
}

/// How far glyphs are slanted by the compositor; zero for not at all.
#[derive(Clone, Copy, Debug, PartialEq, Eq, Structural, Hash)]
pub struct SyntheticItalics {
    pub angle: i16,
}

/// What identifies a font instance: the font, the glyph size and the flags.
#[derive(Clone, Copy, Debug, PartialEq, Eq, Structural, Hash)]
pub struct InstanceId {
    pub font_key: FontKey,
    pub size: Au,
    pub flags: u32,
}

/// A registered font, as mathematical values.
pub struct CachedFont {
    pub key: FontKey,
    pub bytes: Seq<u8>,
    pub face_index: u32,
}

/// What is to be done about a font.
#[derive(Debug, PartialEq, Eq)]
pub enum FontAction<'a> {
    /// The font is registered: use this key and these bytes.
    Use { key: FontKey, data: &'a FontData },
    /// The font is not registered: register it, then note its key.
    Register,
}

/// What is to be done about a font instance.
#[derive(Clone, Copy, Debug, PartialEq, Eq, Structural)]
pub enum InstanceAction {
    /// The instance is registered under this key.
    Use { key: FontInstanceKey },
    /// The instance is not registered: register it with these options, then
    /// note its key.
    Register { bg_color: Option<ColorU>, synthetic_italics: SyntheticItalics },
}

/// [`FontAction`] as mathematical values.
pub enum FontActionView {
    Use { font: CachedFont },
    Register,
}

struct FontEntry {
    desc: FontDescriptor,
    key: FontKey,
    data: FontData,
}

struct InstanceEntry {
    id: InstanceId,
    key: FontInstanceKey,
}

impl FontEntry {
    spec fn cached(self) -> CachedFont {
        CachedFont { key: self.key, bytes: self.data.bytes@, face_index: self.data.face_index }
    }
}

/// The fonts that a list of entries registers: of two entries for one
/// descriptor the earlier counts.
spec fn fonts_of(entries: Seq<FontEntry>) -> Map<FontDescriptorView, CachedFont>
    decreases entries.len(),
{
    if entries.len() == 0 {
        Map::empty()
    } else {
        let earlier = fonts_of(entries.drop_last());
        let entry = entries.last();
        if earlier.contains_key(entry.desc@) {
            earlier
        } else {
            earlier.insert(entry.desc@, entry.cached())
        }
    }
}

/// The instances that a list of entries registers: of two entries for one
/// identity the earlier counts.
spec fn instances_of(entries: Seq<InstanceEntry>) -> Map<InstanceId, FontInstanceKey>
    decreases entries.len(),
{
    if entries.len() == 0 {
        Map::empty()
    } else {
        let earlier = instances_of(entries.drop_last());
        let entry = entries.last();
        if earlier.contains_key(entry.id) {
            earlier
        } else {
            earlier.insert(entry.id, entry.key)
        }
    }
}

/// Where no entry among the first `n` is for `desc`, none of them registers it.
proof fn lemma_fonts_absent(entries: Seq<FontEntry>, desc: FontDescriptorView)
    requires
        forall|j: int| 0 <= j < entries.len() ==> entries[j].desc@ != desc,
    ensures
        !fonts_of(entries).contains_key(desc),
    decreases entries.len(),
{
    if entries.len() > 0 {
        lemma_fonts_absent(entries.drop_last(), desc);
    }
}

/// The first entry for `desc` is the one that counts.
proof fn lemma_fonts_first(entries: Seq<FontEntry>, desc: FontDescriptorView, i: int)
    requires
        0 <= i < entries.len(),
        entries[i].desc@ == desc,
        forall|j: int| 0 <= j < i ==> entries[j].desc@ != desc,
    ensures
        fonts_of(entries).contains_key(desc),
        fonts_of(entries)[desc] == entries[i].cached(),
    decreases entries.len(),
{
    if i == entries.len() - 1 {
        lemma_fonts_absent(entries.drop_last(), desc);
    } else {
        lemma_fonts_first(entries.drop_last(), desc, i);
    }
}

/// Where no entry is for `id`, none registers it.
proof fn lemma_instances_absent(entries: Seq<InstanceEntry>, id: InstanceId)
    requires
        forall|j: int| 0 <= j < entries.len() ==> entries[j].id != id,
    ensures
        !instances_of(entries).contains_key(id),
    decreases entries.len(),
{
    if entries.len() > 0 {
        lemma_instances_absent(entries.drop_last(), id);
    }
}

/// The first entry for `id` is the one that counts.
proof fn lemma_instances_first(entries: Seq<InstanceEntry>, id: InstanceId, i: int)
    requires
        0 <= i < entries.len(),
        entries[i].id == id,
        forall|j: int| 0 <= j < i ==> entries[j].id != id,
    ensures
        instances_of(entries).contains_key(id),
        instances_of(entries)[id] == entries[i].key,
    decreases entries.len(),
{
    if i == entries.len() - 1 {
        lemma_instances_absent(entries.drop_last(), id);
    } else {
        lemma_instances_first(entries.drop_last(), id, i);
    }
}

/// What is to be done about `desc` when `fonts` are registered.
pub open spec fn font_action(
    fonts: Map<FontDescriptorView, CachedFont>,
    desc: FontDescriptorView,
) -> FontActionView {
    if fonts.contains_key(desc) {
        FontActionView::Use { font: fonts[desc] }
    } else {
        FontActionView::Register
    }
}

/// The registered fonts once `font` was noted for `desc`: a descriptor that
/// is registered already keeps what it has.
pub open spec fn with_font(
    fonts: Map<FontDescriptorView, CachedFont>,
    desc: FontDescriptorView,
    font: CachedFont,
) -> Map<FontDescriptorView, CachedFont> {
    if fonts.contains_key(desc) {
        fonts
    } else {
        fonts.insert(desc, font)
    }
}

/// What is to be done about the instance `id` when `instances` are
/// registered.
pub open spec fn instance_action(
    instances: Map<InstanceId, FontInstanceKey>,
    id: InstanceId,
    bg_color: Option<ColorU>,
    synthetic_italics: SyntheticItalics,
) -> InstanceAction {
    if instances.contains_key(id) {
        InstanceAction::Use { key: instances[id] }
    } else {
        InstanceAction::Register { bg_color, synthetic_italics }
    }
}

/// The registered instances once `key` was noted for `id`: an instance that
/// is registered already keeps its key.
pub open spec fn with_instance(
    instances: Map<InstanceId, FontInstanceKey>,
    id: InstanceId,
    key: FontInstanceKey,
) -> Map<InstanceId, FontInstanceKey> {
    if instances.contains_key(id) {
        instances
    } else {
        instances.insert(id, key)
    }
}

/// The fonts and font instances registered with the compositor.
pub struct FontCache {
    fonts: Vec<FontEntry>,
    instances: Vec<InstanceEntry>,
}

impl<'a> FontAction<'a> {
    /// The action as mathematical values.
    pub open spec fn view(self) -> FontActionView {
        match self {
            FontAction::Use { key, data } => FontActionView::Use {
                font: CachedFont { key, bytes: data.bytes@, face_index: data.face_index },
            },
            FontAction::Register => FontActionView::Register,
        }
    }
}

impl FontCache {
    /// The registered fonts, by descriptor.
    pub closed spec fn fonts(&self) -> Map<FontDescriptorView, CachedFont> {
        fonts_of(self.fonts@)
    }

    /// The registered font instances, by identity.
    pub closed spec fn instances(&self) -> Map<InstanceId, FontInstanceKey> {
        instances_of(self.instances@)
    }

    /// A cache in which nothing is registered.
    pub fn new() -> (r: FontCache)
        ensures
            r.fonts() == Map::<FontDescriptorView, CachedFont>::empty(),
            r.instances() == Map::<InstanceId, FontInstanceKey>::empty(),
    {
        FontCache { fonts: Vec::new(), instances: Vec::new() }
    }

    /// The place of the entry that counts for `desc`, if there is one.
    fn find_font(&self, desc: &FontDescriptor) -> (r: Option<usize>)
        ensures
            r is Some <==> self.fonts().contains_key(desc@),
            r is Some ==> r->0 < self.fonts@.len() && self.fonts()[desc@]
                == self.fonts@[r->0 as int].cached(),
    {
        let mut i: usize = 0;
        while i < self.fonts.len()
            invariant
                i <= self.fonts.len(),
                forall|j: int| 0 <= j < i ==> self.fonts@[j].desc@ != desc@,
            decreases self.fonts.len() - i,
        {
            if self.fonts[i].desc.same(desc) {
                proof {
                    lemma_fonts_first(self.fonts@, desc@, i as int);
                }
                return Some(i);
            }
            i += 1;
        }
        proof {
            lemma_fonts_absent(self.fonts@, desc@);
        }
        None
    }

    /// The key of the instance `id`, if it is registered.
    fn find_instance(&self, id: InstanceId) -> (r: Option<FontInstanceKey>)
        ensures
            r is Some <==> self.instances().contains_key(id),
            r is Some ==> self.instances()[id] == r->0,
    {
        let mut i: usize = 0;
        while i < self.instances.len()
            invariant
                i <= self.instances.len(),
                forall|j: int| 0 <= j < i ==> self.instances@[j].id != id,
            decreases self.instances.len() - i,
        {
            if self.instances[i].id == id {
                proof {
                    lemma_instances_first(self.instances@, id, i as int);
                }
                return Some(self.instances[i].key);
            }
            i += 1;
        }
        proof {
            lemma_instances_absent(self.instances@, id);
        }
        None
    }

    /// Looks a font up before it is registered: a registered descriptor
    /// gives its key and its bytes, any other asks for a registration.
    pub fn get_or_create_font(&self, desc: &FontDescriptor) -> (r: FontAction<'_>)
        ensures
            r.view() == font_action(self.fonts(), desc@),
    {
        match self.find_font(desc) {
            Some(i) => FontAction::Use { key: self.fonts[i].key, data: &self.fonts[i].data },
            None => FontAction::Register,
        }
    }

    /// Notes the key and the bytes under which the compositor registered
    /// `desc`, and gives the key that stands for `desc` from now on. A
    /// descriptor that is registered already keeps its key.
    pub fn font_registered(&mut self, desc: FontDescriptor, key: FontKey, data: FontData) -> (r:
        FontKey)
        ensures
            final(self).fonts() == with_font(
                old(self).fonts(),
                desc@,
                CachedFont { key, bytes: data.bytes@, face_index: data.face_index },
            ),
            final(self).instances() == old(self).instances(),
            r == final(self).fonts()[desc@].key,
    {
        match self.find_font(&desc) {
            Some(i) => self.fonts[i].key,
            None => {
                let ghost before = self.fonts@;
                self.fonts.push(FontEntry { desc, key, data });
                assert(self.fonts@.drop_last() =~= before);
                key
            },
        }
    }

    /// Looks a font instance up before it is registered: a registered
    /// combination of font, size and flags gives its key, any other asks for
    /// a registration with the given options.
    pub fn get_or_create_font_instance(
        &self,
        font_key: FontKey,
        size: Au,
        bg_color: Option<ColorU>,
        flags: u32,
        synthetic_italics: SyntheticItalics,
    ) -> (r: InstanceAction)
        ensures
            r == instance_action(
                self.instances(),
                InstanceId { font_key, size, flags },
                bg_color,
                synthetic_italics,
            ),
    {
        match self.find_instance(InstanceId { font_key, size, flags }) {
            Some(key) => InstanceAction::Use { key },
            None => InstanceAction::Register { bg_color, synthetic_italics },
        }
    }

    /// Notes the key under which the compositor registered a font instance,
    /// and gives the key that stands for the instance from now on. An
    /// instance that is registered already keeps its key.
    pub fn font_instance_registered(&mut self, id: InstanceId, key: FontInstanceKey) -> (r:
        FontInstanceKey)
        ensures
            final(self).instances() == with_instance(old(self).instances(), id, key),
            final(self).fonts() == old(self).fonts(),
            r == final(self).instances()[id],
    {
        match self.find_instance(id) {
            Some(known) => known,
            None => {
                let ghost before = self.instances@;
                self.instances.push(InstanceEntry { id, key });
                assert(self.instances@.drop_last() =~= before);
                key
            },
        }
    }
}

/// A font is registered at most once: where the first lookup of a
/// descriptor asks for a registration and the key is noted, the second
/// lookup gives that key and asks for nothing; where the first lookup finds
/// the font, the second finds the same.
pub proof fn lemma_font_registered_once(
    fonts: Map<FontDescriptorView, CachedFont>,
    desc: FontDescriptorView,
    font: CachedFont,
)
    ensures
        ({
            let first = font_action(fonts, desc);
            let noted = if first is Register {
                with_font(fonts, desc, font)
            } else {
                fonts
            };
            let second = font_action(noted, desc);
            &&& first is Register <==> !fonts.contains_key(desc)
            &&& second is Use
            &&& first is Use ==> second == first
            &&& first is Register ==> second == (FontActionView::Use { font })
        }),
{
}

/// A descriptor keeps its key: whatever is noted afterwards, for this
/// descriptor or another, a registered descriptor resolves as before.
pub proof fn lemma_font_key_stable(
    fonts: Map<FontDescriptorView, CachedFont>,
    desc: FontDescriptorView,
    other: FontDescriptorView,
    font: CachedFont,
)
    requires
        fonts.contains_key(desc),
    ensures
        font_action(with_font(fonts, other, font), desc) == font_action(fonts, desc),
{
}

/// A font instance is registered at most once: where the first lookup of a
/// font, a size and flags asks for a registration and the key is noted, the
/// second lookup gives that key and asks for nothing; where the first lookup
/// finds the instance, the second finds the same. The options play no part.
pub proof fn lemma_instance_registered_once(
    instances: Map<InstanceId, FontInstanceKey>,
    id: InstanceId,
    key: FontInstanceKey,
    bg_color: Option<ColorU>,
    synthetic_italics: SyntheticItalics,
    other_bg_color: Option<ColorU>,
    other_synthetic_italics: SyntheticItalics,
)
    ensures
        ({
            let first = instance_action(instances, id, bg_color, synthetic_italics);
            let noted = if first is Register {
                with_instance(instances, id, key)
            } else {
                instances
            };
            let second = instance_action(noted, id, other_bg_color, other_synthetic_italics);
            &&& first is Register <==> !instances.contains_key(id)
            &&& second is Use
            &&& first is Use ==> second == first
            &&& first is Register ==> second == (InstanceAction::Use { key })
        }),
{
}

/// An instance keeps its key: whatever is noted afterwards, a registered
/// instance resolves as before.
pub proof fn lemma_instance_key_stable(
    instances: Map<InstanceId, FontInstanceKey>,
    id: InstanceId,
    other: InstanceId,
    key: FontInstanceKey,
    bg_color: Option<ColorU>,
    synthetic_italics: SyntheticItalics,
)
    requires
        instances.contains_key(id),
    ensures
        instance_action(with_instance(instances, other, key), id, bg_color, synthetic_italics)
            == instance_action(instances, id, bg_color, synthetic_italics),
{
}

} // verus!
