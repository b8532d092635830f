//! The catalog of badge and flash images, and the names of the sound files.
use vstd::prelude::*;

use crate::effects::{kind_voice, side_suffix, EventSpec, Lang, Side};
use crate::text::{ascii_lower, eq_lower, str_eq};

verus! {

pub const MAX_PNG_BYTES: u64 = 8388608;

pub const MAX_TOTAL_PNG_BYTES: u64 = 67108864;

pub const MAX_OGG_BYTES: u64 = 16777216;

pub const MAX_BITMAP_DIMENSION: u32 = 8192;

/// An image to upload: its id, name, PNG bytes and size in pixels.
#[derive(Debug, Clone)]
pub struct BitmapAsset {
    pub id: u32,
    pub name: String,
    pub bytes: Vec<u8>,
    pub width: u32,
    pub height: u32,
}

/// Why an image is refused.
#[derive(Debug, Clone, Copy, PartialEq, Eq, Structural)]
pub enum AssetError {
    /// An image of that name is in the catalog already.
    DuplicateName,
    /// The file is larger than `MAX_PNG_BYTES`.
    PngTooLarge,
    /// All image files together are larger than `MAX_TOTAL_PNG_BYTES`.
    TotalTooLarge,
    /// The image is wider or taller than `MAX_BITMAP_DIMENSION`.
    DimensionsTooLarge,
    /// The catalog has no id left to give.
    TooMany,
}

/// A sound file: the directory it lies in under the asset root, and its name.
#[derive(Debug, Clone)]
pub struct SoundFile {
    pub dir: &'static str,
    pub file: String,
}

/// The images of the catalog, with ids counting from 1 in the order they
/// were added, no name twice, none larger than the limits, and all of them
/// together within the total limit.
pub struct AssetCatalog {
    bitmaps: Vec<BitmapAsset>,
    bitmap_bytes: u64,
    stored_bytes: u64,
}

pub open spec fn ids_in_order(v: Seq<BitmapAsset>) -> bool {
    forall|i: int| 0 <= i < v.len() ==> (#[trigger] v[i]).id == i + 1
}

pub open spec fn names_distinct(v: Seq<BitmapAsset>) -> bool {
    forall|i: int, j: int| 0 <= i < j < v.len() ==> (#[trigger] v[i]).name@ != (#[trigger] v[j]).name@
}

pub open spec fn has_name(v: Seq<BitmapAsset>, name: Seq<char>) -> bool {
    exists|i: int| 0 <= i < v.len() && (#[trigger] v[i]).name@ == name
}

pub open spec fn dims_ok(width: u32, height: u32) -> bool {
    width <= MAX_BITMAP_DIMENSION && height <= MAX_BITMAP_DIMENSION
}

/// The PNG bytes of all the images in `v`.
pub open spec fn bytes_total(v: Seq<BitmapAsset>) -> nat
    decreases v.len(),
{
    if v.len() == 0 {
        0
    } else {
        bytes_total(v.drop_last()) + v.last().bytes@.len()
    }
}

/// Every image of `v` is within the size limits.
pub open spec fn sizes_ok(v: Seq<BitmapAsset>) -> bool {
    forall|i: int|
        0 <= i < v.len() ==> dims_ok((#[trigger] v[i]).width, v[i].height) && v[i].bytes@.len()
            <= MAX_PNG_BYTES
}

/// What holds of the images of every catalog: ids count from 1 in order, no
/// name twice, each image within the size limits and all of them together
/// within the total limit.
pub open spec fn catalog_valid(v: Seq<BitmapAsset>) -> bool {
    &&& ids_in_order(v)
    &&& names_distinct(v)
    &&& sizes_ok(v)
    &&& bytes_total(v) <= MAX_TOTAL_PNG_BYTES
}

proof fn lemma_bytes_total_push(v: Seq<BitmapAsset>, a: BitmapAsset)
    ensures
        bytes_total(v.push(a)) == bytes_total(v) + a.bytes@.len(),
{
    assert(v.push(a).drop_last() =~= v);
}

/// The total image bytes after one more file of `size` bytes, held at `u64::MAX`.
pub open spec fn add_bytes(total: u64, size: u64) -> u64 {
    if total + size > u64::MAX {
        u64::MAX
    } else {
        (total + size) as u64
    }
}

impl AssetCatalog {
    #[verifier::type_invariant]
    closed spec fn inv(&self) -> bool {
        &&& catalog_valid(self.bitmaps@)
        &&& self.stored_bytes == bytes_total(self.bitmaps@)
        &&& self.bitmaps@.len() < u32::MAX
    }

    /// The images in the order they were added.
    pub closed spec fn entries(&self) -> Seq<BitmapAsset> {
        self.bitmaps@
    }

    /// The bytes of all image files admitted so far.
    pub closed spec fn total_bytes(&self) -> u64 {
        self.bitmap_bytes
    }

    /// An empty catalog.
    pub fn new() -> (r: AssetCatalog)
        ensures
            r.entries().len() == 0,
            r.total_bytes() == 0,
    {
        AssetCatalog { bitmaps: Vec::new(), bitmap_bytes: 0, stored_bytes: 0 }
    }

    /// The images, in the order they were added.
    pub fn bitmaps(&self) -> (r: &[BitmapAsset])
        ensures
            r@ == self.entries(),
            catalog_valid(r@),
    {
        proof {
            use_type_invariant(self);
        }
        self.bitmaps.as_slice()
    }

    /// The image named `name`, if there is one.
    pub fn bitmap(&self, name: &str) -> (r: Option<&BitmapAsset>)
        ensures
            match r {
                Some(b) => exists|i: int|
                    0 <= i < self.entries().len() && #[trigger] self.entries()[i] == *b && b.name@ == name@,
                None => !has_name(self.entries(), name@),
            },
    {
        let n = self.bitmaps.len();
        let mut i: usize = 0;
        while i < n
            invariant
                n == self.bitmaps@.len(),
                i <= n,
                forall|j: int| 0 <= j < i ==> (#[trigger] self.bitmaps@[j]).name@ != name@,
            decreases n - i,
        {
            if str_eq(self.bitmaps[i].name.as_str(), name) {
                assert(self.entries()[i as int] == self.bitmaps@[i as int]);
                return Some(&self.bitmaps[i]);
            }
            i = i + 1;
        }
        None
    }

    /// Admits an image file of `size` bytes named `name` before it is read:
    /// refused where the name is taken or the file is too large; the size
    /// counts towards the total, and the total must stay within its limit.
    pub fn admit_png(&mut self, name: &str, size: u64) -> (r: Result<(), AssetError>)
        ensures
            final(self).entries() == old(self).entries(),
            has_name(old(self).entries(), name@) ==> r == Err::<(), AssetError>(AssetError::DuplicateName)
                && final(self).total_bytes() == old(self).total_bytes(),
            !has_name(old(self).entries(), name@) && size > MAX_PNG_BYTES ==> r == Err::<(), AssetError>(
                AssetError::PngTooLarge,
            ) && final(self).total_bytes() == old(self).total_bytes(),
            !has_name(old(self).entries(), name@) && size <= MAX_PNG_BYTES ==> final(self).total_bytes()
                == add_bytes(old(self).total_bytes(), size) && (r is Ok <==> final(self).total_bytes()
                <= MAX_TOTAL_PNG_BYTES) && (r is Err ==> r == Err::<(), AssetError>(
                AssetError::TotalTooLarge,
            )),
    {
        proof {
            use_type_invariant(&*self);
        }
        if self.bitmap(name).is_some() {
            return Err(AssetError::DuplicateName);
        }
        if size > MAX_PNG_BYTES {
            return Err(AssetError::PngTooLarge);
        }
        self.bitmap_bytes = self.bitmap_bytes.saturating_add(size);
        if self.bitmap_bytes > MAX_TOTAL_PNG_BYTES {
            return Err(AssetError::TotalTooLarge);
        }
        Ok(())
    }

    /// Adds a read image and gives its id, the next after the last one; refused
    /// where it is too wide or too tall, its name is taken, its bytes are more
    /// than one image may have, or they would take all images past the total.
    pub fn push_bitmap(&mut self, name: String, bytes: Vec<u8>, width: u32, height: u32) -> (r: Result<
        u32,
        AssetError,
    >)
        ensures
            final(self).total_bytes() == old(self).total_bytes(),
            r is Err ==> final(self).entries() == old(self).entries(),
            !dims_ok(width, height) ==> r == Err::<u32, AssetError>(AssetError::DimensionsTooLarge),
            dims_ok(width, height) && has_name(old(self).entries(), name@) ==> r == Err::<u32, AssetError>(
                AssetError::DuplicateName,
            ),
            dims_ok(width, height) && !has_name(old(self).entries(), name@) && bytes@.len() > MAX_PNG_BYTES
                ==> r == Err::<u32, AssetError>(AssetError::PngTooLarge),
            dims_ok(width, height) && !has_name(old(self).entries(), name@) && bytes@.len() <= MAX_PNG_BYTES
                && bytes_total(old(self).entries()) + bytes@.len() > MAX_TOTAL_PNG_BYTES ==> r == Err::<
                u32,
                AssetError,
            >(AssetError::TotalTooLarge),
            dims_ok(width, height) && !has_name(old(self).entries(), name@) && bytes@.len() <= MAX_PNG_BYTES
                && bytes_total(old(self).entries()) + bytes@.len() <= MAX_TOTAL_PNG_BYTES ==> (if old(
                self,
            ).entries().len() + 1 < u32::MAX {
                r is Ok
            } else {
                r == Err::<u32, AssetError>(AssetError::TooMany)
            }),
            r matches Ok(id) ==> id == old(self).entries().len() + 1 && final(self).entries() == old(
                self,
            ).entries().push(BitmapAsset { id, name, bytes, width, height }),
    {
        proof {
            use_type_invariant(&*self);
        }
        if width > MAX_BITMAP_DIMENSION || height > MAX_BITMAP_DIMENSION {
            return Err(AssetError::DimensionsTooLarge);
        }
        if self.bitmap(name.as_str()).is_some() {
            return Err(AssetError::DuplicateName);
        }
        let size = bytes.len() as u64;
        if size > MAX_PNG_BYTES {
            return Err(AssetError::PngTooLarge);
        }
        if self.stored_bytes + size > MAX_TOTAL_PNG_BYTES {
            return Err(AssetError::TotalTooLarge);
        }
        let n = self.bitmaps.len();
        if n >= 0xffff_fffe {
            return Err(AssetError::TooMany);
        }
        let id: u32 = (n + 1) as u32;
        let asset = BitmapAsset { id, name, bytes, width, height };
        let mut taken = AssetCatalog::new();
        std::mem::swap(&mut taken, self);
        let AssetCatalog { bitmaps: mut v, bitmap_bytes, stored_bytes } = taken;
        let ghost before = v@;
        v.push(asset);
        proof {
            lemma_bytes_total_push(before, asset);
        }
        assert(v@ == before.push(asset));
        assert(names_distinct(v@)) by {
            assert forall|i: int, j: int| 0 <= i < j < v@.len() implies (#[trigger] v@[i]).name@ != (
            #[trigger] v@[j]).name@ by {
                if j == before.len() {
                    assert(v@[i] == before[i]);
                    if before[i].name@ == asset.name@ {
                        assert(has_name(before, asset.name@));
                    }
                }
            }
        }
        assert(sizes_ok(v@)) by {
            assert forall|i: int| 0 <= i < v@.len() implies dims_ok((#[trigger] v@[i]).width, v@[i].height)
                && v@[i].bytes@.len() <= MAX_PNG_BYTES by {
                if i < before.len() {
                    assert(v@[i] == before[i]);
                }
            }
        }
        *self = AssetCatalog { bitmaps: v, bitmap_bytes, stored_bytes: stored_bytes + size };
        Ok(id)
    }
}

/// The directory of the voice lines in a language.
pub open spec fn voice_dir(lang: Lang) -> Seq<char> {
    match lang {
        Lang::Cn => "snd_cn"@,
        Lang::En => "snd_en"@,
    }
}

/// The file of a voice line for a side: `<key>_<CT|T>.ogg`.
pub open spec fn voice_file_name(side: Side, voice_key: Seq<char>) -> Seq<char> {
    voice_key + "_"@ + side_suffix(side) + ".ogg"@
}

/// The voice line `voice_key` of a language and side.
pub fn voice_file(lang: Lang, side: Side, voice_key: &str) -> (r: SoundFile)
    ensures
        r.dir@ == voice_dir(lang),
        r.file@ == voice_file_name(side, voice_key@),
{
    let dir = match lang {
        Lang::Cn => "snd_cn",
        Lang::En => "snd_en",
    };
    let mut file = voice_key.to_owned();
    file.append("_");
    file.append(side.suffix());
    file.append(".ogg");
    SoundFile { dir, file }
}

/// Where a hit sound is looked for, in order: the hit sound directory, then
/// the general sound directory, both as `<name>.ogg`.
pub fn hit_sfx_files(hit_sfx: &str) -> (r: Vec<SoundFile>)
    ensures
        r@.len() == 2,
        r@[0].dir@ == "snd_hit"@,
        r@[1].dir@ == "snd_gen"@,
        r@[0].file@ == hit_sfx@ + ".ogg"@,
        r@[1].file@ == hit_sfx@ + ".ogg"@,
{
    let mut file = hit_sfx.to_owned();
    file.append(".ogg");
    let mut v: Vec<SoundFile> = Vec::new();
    v.push(SoundFile { dir: "snd_hit", file: file.clone() });
    v.push(SoundFile { dir: "snd_gen", file });
    v
}

/// The image directories under the asset root, in the order they are loaded:
/// the badges first, then the flash images, so that the badges take the
/// first ids.
pub fn png_dirs() -> (r: Vec<&'static str>)
    ensures
        r@.len() == 2,
        r@[0]@ == "badges"@,
        r@[1]@ == "fx"@,
{
    let mut v: Vec<&'static str> = Vec::new();
    v.push("badges");
    v.push("fx");
    v
}

/// The sound directories whose files are checked at load.
pub fn sound_dirs() -> (r: Vec<&'static str>)
    ensures
        r@.len() == 4,
        r@[0]@ == "snd_cn"@,
        r@[1]@ == "snd_en"@,
        r@[2]@ == "snd_gen"@,
        r@[3]@ == "snd_hit"@,
{
    let mut v: Vec<&'static str> = Vec::new();
    v.push("snd_cn");
    v.push("snd_en");
    v.push("snd_gen");
    v.push("snd_hit");
    v
}

/// Whether a sound file of `size` bytes is small enough.
pub fn ogg_size_ok(size: u64) -> (r: bool)
    ensures
        r == (size <= MAX_OGG_BYTES),
{
    size <= MAX_OGG_BYTES
}


/// Whether a file extension is `png`, in any ASCII case.
pub fn is_png_extension(ext: &str) -> (r: bool)
    ensures
        r == (ascii_lower(ext@) == "png"@),
{
    eq_lower(ext, "png")
}

/// Whether a file extension is `ogg`, in any ASCII case.
pub fn is_ogg_extension(ext: &str) -> (r: bool)
    ensures
        r == (ascii_lower(ext@) == "ogg"@),
{
    eq_lower(ext, "ogg")
}

/// The sounds of an effect, each as the files to try in order: the voice
/// line for the side where the effect has one and the side is known, then the
/// hit sound.
pub fn effect_sounds(spec: &EventSpec, lang: Lang, side: Option<Side>) -> (r: Vec<Vec<SoundFile>>)
    ensures
        r@.len() == (if kind_voice(spec.kind) is Some && side is Some { 2int } else { 1int }),
        kind_voice(spec.kind) is Some && side is Some ==> r@[0]@.len() == 1 && r@[0]@[0].dir@ == voice_dir(lang)
            && r@[0]@[0].file@ == voice_file_name(side->0, kind_voice(spec.kind)->0),
        r@.last()@.len() == 2 && r@.last()@[0].dir@ == "snd_hit"@ && r@.last()@[1].dir@ == "snd_gen"@
            && r@.last()@[0].file@ == "UI_SPECIALKILL2"@ + ".ogg"@ && r@.last()@[1].file@ == "UI_SPECIALKILL2"@
            + ".ogg"@,
{
    let mut sounds: Vec<Vec<SoundFile>> = Vec::new();
    match (spec.voice_key(), side) {
        (Some(voice_key), Some(side)) => {
            let mut one: Vec<SoundFile> = Vec::new();
            one.push(voice_file(lang, side, voice_key));
            sounds.push(one);
        },
        _ => {},
    }
    match spec.hit_sfx() {
        Some(hit) => {
            sounds.push(hit_sfx_files(hit));
        },
        None => {},
    }
    sounds
}

/// In a catalog each name picks out one image: two images of the same name
/// are the same image, so a lookup by an image's name finds that image.
pub proof fn law_names_identify_images(v: Seq<BitmapAsset>, i: int, j: int)
    requires
        catalog_valid(v),
        0 <= i < v.len(),
        0 <= j < v.len(),
        v[i].name@ == v[j].name@,
    ensures
        i == j,
        v[i].id == i + 1,
{
    if i < j {
        assert(v[i].name@ != v[j].name@);
    } else if j < i {
        assert(v[j].name@ != v[i].name@);
    }
}

/// An image admitted to the catalog can be found by its name after it is
/// added: it is the only image of that name, and it is the last one.
pub proof fn law_added_image_found_by_name(before: Seq<BitmapAsset>, a: BitmapAsset, i: int)
    requires
        !has_name(before, a.name@),
        0 <= i < before.len() + 1,
        before.push(a)[i].name@ == a.name@,
    ensures
        i == before.len(),
        before.push(a)[i] == a,
{
    if i < before.len() {
        assert(before.push(a)[i] == before[i]);
        assert(has_name(before, a.name@));
    }
}

} // verus!
