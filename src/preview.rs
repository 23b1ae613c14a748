use vstd::prelude::*;
use crate::caches::{
    Texture,
    TextureCache,
    CachedImage,
    MainCache,
    valid_entry,
    sorted_upsert,
    lemma_cached_image_found,
};
use crate::keyed::{has_key, lookup, lemma_upsert};
use crate::paths::{
    PreviewKind,
    preview_kind,
    classify,
    is_preload_path,
    is_preload_image,
    is_image_file,
    extension_of,
    upper_of,
    path_extension,
    to_upper,
};
use crate::preload::{PreloadCache, trimmed};
use crate::folder::{views, preload_selection, select_preload_paths};
use crate::text::{decimal, decimal_string};
use crate::summary::{FolderPreview, text_preview, text_preview_of, lines_of, is_thumbnail_path};
use crate::thumbnail::{PixelBuffer, DecodeError, decoded_size, generate_thumbnail};

verus! {

/// The outcome of one single-image background load, handed from the worker
/// to the render thread through the result slot.
pub struct LoadingResult {
    pub file_path: String,
    pub pixels: Option<PixelBuffer>,
    pub error: Option<String>,
    /// Byte length and modification time (seconds since the Unix epoch) of
    /// the file when it was read, where they could be read; only a result
    /// with both is kept in the full-preview cache.
    pub file_size: Option<u64>,
    pub last_modified: Option<u64>,
}

/// What a request or a frame update asks of the caller.
#[derive(Clone, Copy, Debug, PartialEq, Eq, Structural)]
pub enum LoadStep {
    /// Nothing changed: the path is already current and resident, or no
    /// result has arrived yet.
    Unchanged,
    /// A load is in flight; the path waits as the pending request.
    Deferred,
    /// A folder was opened: list it and preload its images.
    Folder,
    /// A text file was opened: read it and hand its contents back.
    Text,
    /// An image was opened and is displayed from a cache.
    Shown,
    /// An image was opened that no cache holds: decode it in the background.
    Decode,
    /// A file with no preview was opened.
    Unsupported,
}

/// The load coordinator's state: the selected path, whether its decode is in
/// flight, the request deferred meanwhile, and the path whose image is shown.
pub struct Coord {
    pub current: Option<Seq<char>>,
    pub loading: bool,
    pub pending: Option<Seq<char>>,
    pub shown: Option<Seq<char>>,
}

/// Whether an image for `key` is resident in one of the caches: an uploaded
/// texture, a preloaded thumbnail, or a full preview whose file still has
/// the recorded byte length.
pub open spec fn image_hit<T>(
    textures: TextureCache<T>,
    preload: PreloadCache,
    main: MainCache<T>,
    key: Seq<char>,
    current_size: Option<u64>,
) -> bool {
    has_key(textures.slots(), key) || has_key(preload.slots(), key) || valid_entry(
        main.slots(),
        key,
        current_size,
    ) is Some
}

/// Dimensions of the image resident for `key`, from the first cache that
/// holds it: uploaded textures, preloaded thumbnails, then full previews
/// still valid for the file's byte length.
pub open spec fn resident_dims<T>(
    textures: TextureCache<T>,
    preload: PreloadCache,
    main: MainCache<T>,
    key: Seq<char>,
    current_size: Option<u64>,
) -> Option<(u32, u32)> {
    if has_key(textures.slots(), key) {
        let c = lookup(textures.slots(), key)->Some_0;
        Some((c.width, c.height))
    } else if has_key(preload.slots(), key) {
        let b = lookup(preload.slots(), key)->Some_0;
        Some((b.width, b.height))
    } else {
        match valid_entry(main.slots(), key, current_size) {
            Some(e) => Some((e.width, e.height)),
            None => None,
        }
    }
}

/// A request to preview path `p` of kind `kind`, with `hit` telling whether
/// an image for it is resident.
pub open spec fn request(c: Coord, p: Seq<char>, kind: PreviewKind, hit: bool) -> (Coord, LoadStep) {
    if c.current == Some(p) && !c.loading {
        (c, LoadStep::Unchanged)
    } else if c.loading {
        (Coord { pending: Some(p), ..c }, LoadStep::Deferred)
    } else {
        let opened = Coord { current: Some(p), loading: false, pending: c.pending, shown: None };
        match kind {
            PreviewKind::Folder => (opened, LoadStep::Folder),
            PreviewKind::Text => (opened, LoadStep::Text),
            PreviewKind::Unsupported => (opened, LoadStep::Unsupported),
            PreviewKind::Image => if hit {
                (Coord { shown: Some(p), ..opened }, LoadStep::Shown)
            } else {
                (Coord { loading: true, ..opened }, LoadStep::Decode)
            },
        }
    }
}

/// One frame's update. `slot` is the background result that arrived, as its
/// path and whether it holds pixels; `kind` and `hit` describe the pending
/// path, which is requested as soon as no load is in flight.
pub open spec fn poll(c: Coord, slot: Option<(Seq<char>, bool)>, kind: PreviewKind, hit: bool) -> (
    Coord,
    LoadStep,
) {
    if c.loading && slot is None {
        (c, LoadStep::Unchanged)
    } else {
        let settled = if !c.loading {
            c
        } else {
            let rp = slot->Some_0.0;
            let ok = slot->Some_0.1;
            if c.current == Some(rp) {
                Coord { loading: false, shown: if ok { Some(rp) } else { None }, ..c }
            } else {
                Coord { loading: false, ..c }
            }
        };
        match settled.pending {
            Some(q) => request(Coord { pending: None, ..settled }, q, kind, hit),
            None => (settled, LoadStep::Unchanged),
        }
    }
}

/// Whether `res` is the result of the decode in flight in `c`.
pub open spec fn applies(c: Coord, res: LoadingResult) -> bool {
    c.loading && c.current == Some(res.file_path@)
}

pub open spec fn slot_view(slot: Option<LoadingResult>) -> Option<(Seq<char>, bool)> {
    match slot {
        Some(r) => Some((r.file_path@, r.pixels is Some)),
        None => None,
    }
}

/// "图片预览" text for a `w` x `h` image at path `p`.
pub open spec fn image_summary(w: u32, h: u32, p: Seq<char>) -> Seq<char> {
    "图片预览\n\n尺寸: "@ + decimal(w as nat) + " x "@ + decimal(h as nat) + " 像素\n格式: "@
        + match extension_of(p) {
        Some(e) => upper_of(e),
        None => "未知"@,
    }
}

/// Builds the summary shown beside a previewed image.
pub fn image_summary_text(w: u32, h: u32, path: &str) -> (r: String)
    ensures
        r@ == image_summary(w, h, path@),
{
    let mut s = String::from_str("图片预览\n\n尺寸: ");
    s.append(decimal_string(w as u64).as_str());
    s.append(" x ");
    s.append(decimal_string(h as u64).as_str());
    s.append(" 像素\n格式: ");
    match path_extension(path) {
        Some(e) => {
            let upper = to_upper(e.as_str());
            s.append(upper.as_str());
        },
        None => {
            s.append("未知");
        },
    }
    s
}

/// The file type shown for a path: 文件夹 for folders, the upper-case
/// extension for files that have one, else 文件.
pub open spec fn file_type_of(p: Seq<char>, is_dir: bool) -> Seq<char> {
    if is_dir {
        "文件夹"@
    } else {
        match extension_of(p) {
            Some(e) => upper_of(e),
            None => "文件"@,
        }
    }
}

pub fn get_file_type(path: &str, is_dir: bool) -> (r: String)
    ensures
        r@ == file_type_of(path@, is_dir),
{
    if is_dir {
        return String::from_str("文件夹");
    }
    match path_extension(path) {
        Some(e) => to_upper(e.as_str()),
        None => String::from_str("文件"),
    }
}

/// The single-image load performed on a background thread: refuses folders
/// and files that are not a decodable image type, then decodes `source` (the
/// file's bytes, or the message of the read error) into a thumbnail. Every
/// failure is recorded in `error`; none escapes.
pub fn load_image_in_background(
    path: String,
    is_dir: bool,
    source: Result<Vec<u8>, String>,
    file_size: Option<u64>,
    last_modified: Option<u64>,
) -> (r: LoadingResult)
    ensures
        r.file_path == path,
        r.file_size == file_size,
        r.last_modified == last_modified,
        r.pixels is Some <==> r.error is None,
        r.pixels is Some <==> (!is_dir && is_preload_path(path@) && (source matches Ok(b) && b@.len()
            <= crate::thumbnail::MAX_SOURCE_BYTES && decoded_size(b@) is Some)),
        r.pixels matches Some(p) ==> (source matches Ok(b) && (decoded_size(b@) matches Some(
            (w, h),
        ) && (p.width, p.height) == crate::thumbnail::thumbnail_dims(w, h))),
        is_dir ==> (r.error matches Some(m) && m@ == "这是一个文件夹，不是图片文件"@),
        !is_dir && !is_preload_path(path@) ==> (r.error matches Some(m) && m@
            == "文件不是支持的图片格式"@),
        !is_dir && is_preload_path(path@) ==> match source {
            Err(e) => (r.error matches Some(m) && m@ == "无法读取文件: "@ + e@),
            Ok(b) => if b@.len() > crate::thumbnail::MAX_SOURCE_BYTES {
                (r.error matches Some(m) && m@ == "无法加载图片: 文件过大"@)
            } else if decoded_size(b@) is None {
                (r.error matches Some(m) && m@.len() >= 8 && m@.take(8) == "无法加载图片: "@)
            } else {
                r.error is None
            },
        },
{
    let (pixels, error) = if is_dir {
        (None, Some(String::from_str("这是一个文件夹，不是图片文件")))
    } else if !is_preload_image(path.as_str()) {
        (None, Some(String::from_str("文件不是支持的图片格式")))
    } else {
        match source {
            Err(message) => {
                let mut s = String::from_str("无法读取文件: ");
                s.append(message.as_str());
                (None, Some(s))
            },
            Ok(bytes) => match generate_thumbnail(bytes.as_slice()) {
                Ok(b) => (Some(b), None),
                Err(e) => {
                    let m = decode_error_message(&e);
                    proof {
                        reveal_strlit("无法加载图片: ");
                        reveal_strlit("无法加载图片: 文件过大");
                        if !(e is TooLarge) {
                            assert(m@.take(8) =~= "无法加载图片: "@);
                        }
                    }
                    (None, Some(m))
                },
            },
        }
    };
    LoadingResult { file_path: path, pixels, error, file_size, last_modified }
}

/// The text shown for a failed decode.
pub open spec fn decode_error_text(e: DecodeError) -> Seq<char> {
    match e {
        DecodeError::TooLarge { .. } => "无法加载图片: 文件过大"@,
        DecodeError::LimitExceeded(m) => "无法加载图片: "@ + m@,
        DecodeError::Corrupt(m) => "无法加载图片: "@ + m@,
        DecodeError::Unreadable(m) => "无法加载图片: "@ + m@,
    }
}

/// Builds the text shown for a failed decode.
pub fn decode_error_message(e: &DecodeError) -> (r: String)
    ensures
        r@ == decode_error_text(*e),
{
    proof {
        reveal_strlit("无法加载图片: 文件过大");
    }
    match e {
        DecodeError::TooLarge { .. } => String::from_str("无法加载图片: 文件过大"),
        DecodeError::LimitExceeded(m) | DecodeError::Corrupt(m) | DecodeError::Unreadable(m) => {
            let mut s = String::from_str("无法加载图片: ");
            s.append(m.as_str());
            proof {
                reveal_strlit("无法加载图片: ");
            }
            s
        },
    }
}

pub open spec fn pending_path(c: Coord) -> Seq<char> {
    match c.pending {
        Some(q) => q,
        None => Seq::empty(),
    }
}

pub open spec fn pending_kind(c: Coord, is_dir: bool) -> PreviewKind {
    preview_kind(pending_path(c), is_dir)
}

pub open spec fn opt_view(s: Option<String>) -> Option<Seq<char>> {
    match s {
        Some(x) => Some(x@),
        None => None,
    }
}

fn same_path(a: &Option<String>, b: &str) -> (r: bool)
    ensures
        r == (opt_view(*a) == Some(b@)),
{
    match a {
        Some(x) => crate::text::str_eq(x.as_str(), b),
        None => false,
    }
}

/// The preview façade: the load coordinator together with the render
/// thread's texture cache and the validated full-preview cache. All of it is
/// owned by the render thread; `T` is the renderer's texture handle.
pub struct Preview<T> {
    current_file: Option<String>,
    preview_content: String,
    image: Option<Texture<T>>,
    is_loading: bool,
    pending_file: Option<String>,
    textures: TextureCache<T>,
    main_cache: MainCache<T>,
    image_stream_paths: Vec<String>,
    current_folder: Option<String>,
    pending_folder: Option<String>,
}

impl<T: Clone> Preview<T> {
    pub closed spec fn coord(&self) -> Coord {
        Coord {
            current: opt_view(self.current_file),
            loading: self.is_loading,
            pending: opt_view(self.pending_file),
            shown: if self.image is Some {
                opt_view(self.current_file)
            } else {
                None
            },
        }
    }

    pub closed spec fn texture_cache(&self) -> TextureCache<T> {
        self.textures
    }

    pub closed spec fn main_cache(&self) -> MainCache<T> {
        self.main_cache
    }

    pub closed spec fn shown_texture(&self) -> Option<Texture<T>> {
        self.image
    }

    pub closed spec fn content(&self) -> Seq<char> {
        self.preview_content@
    }

    pub closed spec fn wf(&self) -> bool {
        &&& self.textures.wf()
        &&& self.main_cache.wf()
        &&& self.is_loading ==> self.image is None && self.current_file is Some
        &&& self.image is Some ==> self.current_file is Some
    }

    /// An idle preview whose full-preview cache is sized from the system's
    /// available memory.
    pub fn new() -> (r: Preview<T>)
        ensures
            r.wf(),
            r.coord() == (Coord { current: None, loading: false, pending: None, shown: None }),
            r.texture_cache().slots().len() == 0,
            r.main_cache().slots().len() == 0,
            exists|available: u64|
                r.main_cache().spec_max_size() == #[trigger] crate::budget::preload_capacity_for(
                    available as nat,
                ) / 2,
    {
        let (_, main_size) = crate::budget::calculate_cache_sizes();
        Preview::with_main_cache_size(main_size)
    }

    /// An idle preview whose full-preview cache holds at most `max_size`
    /// entries.
    pub fn with_main_cache_size(max_size: usize) -> (r: Preview<T>)
        ensures
            r.wf(),
            r.coord() == (Coord { current: None, loading: false, pending: None, shown: None }),
            r.main_cache().slots().len() == 0,
            r.main_cache().spec_max_size() == max_size,
            r.texture_cache().slots().len() == 0,
    {
        Preview {
            current_file: None,
            preview_content: String::new(),
            image: None,
            is_loading: false,
            pending_file: None,
            textures: TextureCache::new(),
            main_cache: MainCache::new(max_size),
            image_stream_paths: Vec::new(),
            current_folder: None,
            pending_folder: None,
        }
    }

    pub fn current_file(&self) -> (r: Option<&String>)
        ensures
            match r {
                Some(s) => self.coord().current == Some(s@),
                None => self.coord().current is None,
            },
    {
        self.current_file.as_ref()
    }

    pub fn pending_file(&self) -> (r: Option<&String>)
        ensures
            match r {
                Some(s) => self.coord().pending == Some(s@),
                None => self.coord().pending is None,
            },
    {
        self.pending_file.as_ref()
    }

    pub fn is_loading(&self) -> (r: bool)
        ensures
            r == self.coord().loading,
    {
        self.is_loading
    }

    /// The text shown in place of, or beside, the image.
    pub fn preview_content(&self) -> (r: &String)
        ensures
            r@ == self.content(),
    {
        &self.preview_content
    }

    /// The displayed texture, if an image is shown.
    pub fn image(&self) -> (r: Option<&Texture<T>>)
        requires
            self.wf(),
        ensures
            r is Some <==> self.coord().shown is Some,
    {
        self.image.as_ref()
    }

    /// Requests a preview of `path`. `is_dir` and `current_size` (the file's
    /// byte length, `None` if unreadable) describe the path as it is now;
    /// `preload` is the shared thumbnail cache and `upload` turns pixels
    /// into a texture on this thread.
    ///
    /// A path that is already current and resident is left alone; while a
    /// load is in flight the path becomes the pending request; otherwise it
    /// is opened, and an image is shown from a cache or sent for decoding.
    pub fn load_preview<F: Fn(&PixelBuffer) -> T>(
        &mut self,
        path: String,
        is_dir: bool,
        current_size: Option<u64>,
        preload: &PreloadCache,
        upload: &F,
    ) -> (r: LoadStep)
        requires
            old(self).wf(),
            preload.wf(),
            forall|b: &PixelBuffer| upload.requires((b,)),
        ensures
            final(self).wf(),
            (final(self).coord(), r) == request(
                old(self).coord(),
                path@,
                preview_kind(path@, is_dir),
                image_hit(
                    old(self).texture_cache(),
                    *preload,
                    old(self).main_cache(),
                    path@,
                    current_size,
                ),
            ),
            image_hit(
                final(self).texture_cache(),
                *preload,
                final(self).main_cache(),
                path@,
                current_size,
            ) == image_hit(
                old(self).texture_cache(),
                *preload,
                old(self).main_cache(),
                path@,
                current_size,
            ),
            final(self).main_cache() == old(self).main_cache(),
            forall|k: Seq<char>| k != path@ ==> lookup(final(self).texture_cache().slots(), k)
                == lookup(old(self).texture_cache().slots(), k),
            r == LoadStep::Decode ==> final(self).content() == "正在加载图片..."@,
            r == LoadStep::Unsupported ==> final(self).content() == "此文件类型不支持预览"@,
            r == LoadStep::Shown ==> (final(self).shown_texture() matches Some(t) && Some(
                (t.width, t.height),
            ) == resident_dims(
                old(self).texture_cache(),
                *preload,
                old(self).main_cache(),
                path@,
                current_size,
            ) && final(self).content() == image_summary(t.width, t.height, path@)),
            r == LoadStep::Unchanged || r == LoadStep::Deferred ==> final(self).content() == old(self).content() && final(self).shown_texture() == old(self).shown_texture()
                && final(self).texture_cache() == old(self).texture_cache(),
    {
        if same_path(&self.current_file, path.as_str()) && !self.is_loading {
            return LoadStep::Unchanged;
        }
        if self.is_loading {
            self.pending_file = Some(path);
            return LoadStep::Deferred;
        }
        let kind = classify(path.as_str(), is_dir);
        self.current_file = Some(path.clone());
        self.preview_content = String::new();
        self.image = None;
        self.is_loading = false;
        match kind {
            PreviewKind::Folder => {
                self.preview_content = String::from_str("正在加载文件夹内容...");
                LoadStep::Folder
            },
            PreviewKind::Text => LoadStep::Text,
            PreviewKind::Unsupported => {
                self.preview_content = String::from_str("此文件类型不支持预览");
                LoadStep::Unsupported
            },
            PreviewKind::Image => {
                match self.find_image(&path, current_size, preload, upload) {
                    Some(t) => {
                        self.preview_content = image_summary_text(t.width, t.height, path.as_str());
                        self.image = Some(t);
                        LoadStep::Shown
                    },
                    None => {
                        self.is_loading = true;
                        self.preview_content = String::from_str("正在加载图片...");
                        LoadStep::Decode
                    },
                }
            },
        }
    }

    /// Called once per frame. `slot` is the background result taken from the
    /// shared slot, if one arrived; `pending_is_dir` and `pending_size`
    /// describe the pending path, if any.
    ///
    /// While a load is in flight and nothing arrived, nothing changes. A
    /// result for the current path is shown (its texture uploaded and kept
    /// in the full-preview cache) or its error displayed; a result for any
    /// other path is discarded. Once nothing is in flight, the pending path
    /// is requested at once.
    pub fn update<F: Fn(&PixelBuffer) -> T>(
        &mut self,
        slot: Option<LoadingResult>,
        pending_is_dir: bool,
        pending_size: Option<u64>,
        preload: &PreloadCache,
        upload: &F,
    ) -> (r: LoadStep)
        requires
            old(self).wf(),
            preload.wf(),
            forall|b: &PixelBuffer| upload.requires((b,)),
        ensures
            final(self).wf(),
            (final(self).coord(), r) == poll(
                old(self).coord(),
                slot_view(slot),
                pending_kind(old(self).coord(), pending_is_dir),
                image_hit(
                    final(self).texture_cache(),
                    *preload,
                    final(self).main_cache(),
                    pending_path(old(self).coord()),
                    pending_size,
                ),
            ),
            old(self).coord().pending is None ==> final(self).texture_cache() == old(self).texture_cache(),
            old(self).coord().pending is None && !(slot matches Some(res) && applies(
                old(self).coord(),
                res,
            )) ==> final(self).content() == old(self).content() && final(self).shown_texture()
                == old(self).shown_texture() && final(self).main_cache() == old(self).main_cache(),
            match slot {
                Some(res) => (applies(old(self).coord(), res) && old(self).coord().pending is None)
                    ==> final(self).content() == match res.pixels {
                    Some(b) => image_summary(b.width, b.height, res.file_path@),
                    None => match res.error {
                        Some(e) => e@,
                        None => Seq::<char>::empty(),
                    },
                },
                None => true,
            },
            match slot {
                Some(res) => (applies(old(self).coord(), res) && old(self).coord().pending is None)
                    ==> match res.pixels {
                    Some(b) => (final(self).shown_texture() matches Some(t) && t.width == b.width
                        && t.height == b.height),
                    None => final(self).shown_texture() is None,
                },
                None => true,
            },
            match slot {
                Some(res) => (applies(old(self).coord(), res) && old(self).coord().pending is None
                    && res.pixels is Some) ==> if res.file_size is Some && res.last_modified is Some {
                    exists|t: T|
                        final(self).main_cache().slots() == trimmed(
                            #[trigger] sorted_upsert(
                                old(self).main_cache().slots(),
                                res.file_path,
                                CachedImage {
                                    texture: t,
                                    width: res.pixels->Some_0.width,
                                    height: res.pixels->Some_0.height,
                                    file_size: res.file_size->Some_0,
                                    last_modified: res.last_modified->Some_0,
                                },
                            ),
                            old(self).main_cache().spec_max_size() as int,
                        )
                } else {
                    final(self).main_cache() == old(self).main_cache()
                },
                None => true,
            },
    {
        let ghost mut applied: Option<T> = None;
        let ghost slot0 = slot;
        if self.is_loading {
            match slot {
                None => {
                    return LoadStep::Unchanged;
                },
                Some(result) => {
                    if same_path(&self.current_file, result.file_path.as_str()) {
                        match result.pixels {
                            Some(pixels) => {
                                let handle = upload(&pixels);
                                match (result.file_size, result.last_modified) {
                                    (Some(size), Some(modified)) => {
                                        let cached = CachedImage {
                                            texture: handle.clone(),
                                            width: pixels.width,
                                            height: pixels.height,
                                            file_size: size,
                                            last_modified: modified,
                                        };
                                        self.main_cache.cache_image(
                                            result.file_path.clone(),
                                            cached,
                                        );
                                        proof {
                                            applied = Some(cached.texture);
                                        }
                                    },
                                    _ => {},
                                }
                                self.preview_content = image_summary_text(
                                    pixels.width,
                                    pixels.height,
                                    result.file_path.as_str(),
                                );
                                self.image = Some(
                                    Texture { handle, width: pixels.width, height: pixels.height },
                                );
                            },
                            None => {
                                self.preview_content = match result.error {
                                    Some(e) => e,
                                    None => String::new(),
                                };
                                self.image = None;
                            },
                        }
                    }
                    self.is_loading = false;
                },
            }
        }
        proof {
            if let Some(t) = applied {
                let res = slot0->Some_0;
                let b = res.pixels->Some_0;
                let c = CachedImage {
                    texture: t,
                    width: b.width,
                    height: b.height,
                    file_size: res.file_size->Some_0,
                    last_modified: res.last_modified->Some_0,
                };
                assert(self.main_cache().slots() == trimmed(
                    sorted_upsert(old(self).main_cache().slots(), res.file_path, c),
                    old(self).main_cache().spec_max_size() as int,
                ));
            }
        }
        match self.pending_file.take() {
            Some(q) => self.load_preview(q, pending_is_dir, pending_size, preload, upload),
            None => LoadStep::Unchanged,
        }
    }

    /// Deselects: no current file, nothing shown or pending, no load in
    /// flight. The caches stay, the full-preview cache trimmed to its bound.
    pub fn clear(&mut self)
        requires
            old(self).wf(),
        ensures
            final(self).wf(),
            final(self).coord() == (Coord {
                current: None,
                loading: false,
                pending: None,
                shown: None,
            }),
            final(self).content().len() == 0,
            final(self).texture_cache() == old(self).texture_cache(),
            final(self).main_cache().slots() == trimmed(
                old(self).main_cache().slots(),
                old(self).main_cache().spec_max_size() as int,
            ),
    {
        self.current_file = None;
        self.preview_content = String::new();
        self.image = None;
        self.is_loading = false;
        self.pending_file = None;
        self.main_cache.cleanup_cache();
    }

    /// Shows the contents of the text file `path` once they were read
    /// (`None` when reading failed), if `path` is still the current file.
    pub fn set_text_preview(&mut self, path: &str, content: Option<String>)
        requires
            old(self).wf(),
        ensures
            final(self).wf(),
            final(self).coord() == old(self).coord(),
            final(self).texture_cache() == old(self).texture_cache(),
            final(self).main_cache() == old(self).main_cache(),
            old(self).coord().current == Some(path@) && old(self).coord().shown is None ==> final(self).content() == (match content {
                Some(c) => text_preview_of(lines_of(c@)),
                None => "无法读取文件内容"@,
            }),
            !(old(self).coord().current == Some(path@) && old(self).coord().shown is None) ==> final(self).content() == old(self).content(),
    {
        if same_path(&self.current_file, path) && self.image.is_none() {
            self.preview_content = match content {
                Some(c) => text_preview(c.as_str()),
                None => String::from_str("无法读取文件内容"),
            };
        }
    }

    /// Shows the listing of folder `path` and the images found in it, if
    /// `path` is still the current file.
    pub fn set_folder_preview(&mut self, path: &str, preview: FolderPreview)
        requires
            old(self).wf(),
        ensures
            final(self).wf(),
            final(self).coord() == old(self).coord(),
            final(self).texture_cache() == old(self).texture_cache(),
            final(self).main_cache() == old(self).main_cache(),
            old(self).coord().current == Some(path@) ==> final(self).content() == preview.content@
                && final(self).stream_paths() == preview.image_paths@,
            old(self).coord().current != Some(path@) ==> final(self).content() == old(self).content() && final(self).stream_paths() == old(self).stream_paths(),
    {
        if same_path(&self.current_file, path) {
            self.preview_content = preview.content;
            self.image_stream_paths = preview.image_paths;
        }
    }

    pub closed spec fn preload_folder(&self) -> Option<Seq<char>> {
        opt_view(self.current_folder)
    }

    pub closed spec fn delayed_preload(&self) -> Option<Seq<char>> {
        opt_view(self.pending_folder)
    }

    pub closed spec fn stream_paths(&self) -> Seq<String> {
        self.image_stream_paths@
    }

    /// The images of the current folder shown as a thumbnail stream.
    pub fn image_stream_paths(&self) -> (r: &Vec<String>)
        ensures
            r@ == self.stream_paths(),
    {
        &self.image_stream_paths
    }

    /// Starts preloading `folder`, whose entries are `listing`: records it
    /// as the folder being preloaded and returns the paths to queue for the
    /// workers, exactly the decodable images of the listing in its order.
    /// The preload cache is kept: entries stay valid across folders.
    pub fn preload_folder_images(&mut self, folder: String, listing: &Vec<String>) -> (r: Vec<
        String,
    >)
        requires
            old(self).wf(),
        ensures
            final(self).wf(),
            final(self).coord() == old(self).coord(),
            final(self).content() == old(self).content(),
            final(self).shown_texture() == old(self).shown_texture(),
            final(self).texture_cache() == old(self).texture_cache(),
            final(self).main_cache() == old(self).main_cache(),
            final(self).preload_folder() == Some(folder@),
            views(r@) == preload_selection(views(listing@)),
    {
        self.current_folder = Some(folder);
        select_preload_paths(listing)
    }

    /// Asks for `folder` to be preloaded on the next frame.
    pub fn request_delayed_preload(&mut self, folder: String)
        requires
            old(self).wf(),
        ensures
            final(self).wf(),
            final(self).coord() == old(self).coord(),
            final(self).texture_cache() == old(self).texture_cache(),
            final(self).main_cache() == old(self).main_cache(),
            final(self).delayed_preload() == Some(folder@),
    {
        self.pending_folder = Some(folder);
    }

    /// The folder whose preload was requested, once; the request is cleared.
    pub fn take_delayed_preload(&mut self) -> (r: Option<String>)
        requires
            old(self).wf(),
        ensures
            final(self).wf(),
            final(self).coord() == old(self).coord(),
            final(self).texture_cache() == old(self).texture_cache(),
            final(self).main_cache() == old(self).main_cache(),
            opt_view(r) == old(self).delayed_preload(),
            final(self).delayed_preload() is None,
    {
        self.pending_folder.take()
    }

    /// Empties every cache: the uploaded textures, the full previews and the
    /// shared preload cache (the caller stops its workers first). The
    /// selection stays.
    pub fn cleanup(&mut self, preload: &mut PreloadCache)
        requires
            old(self).wf(),
        ensures
            final(self).wf(),
            final(self).coord() == old(self).coord(),
            final(self).texture_cache().slots().len() == 0,
            final(self).main_cache().slots().len() == 0,
            final(self).main_cache().spec_max_size() == old(self).main_cache().spec_max_size(),
            final(preload).wf(),
            final(preload).slots().len() == 0,
            final(preload).spec_capacity() == old(preload).spec_capacity(),
    {
        preload.clear();
        self.textures = TextureCache::new();
        let max_size = self.main_cache.max_size();
        self.main_cache = MainCache::new(max_size);
    }

    /// Looks `key` up in the texture cache, then among the preloaded
    /// thumbnails (uploading and caching it on this thread), then in the
    /// full-preview cache.
    fn find_image<F: Fn(&PixelBuffer) -> T>(
        &mut self,
        key: &String,
        current_size: Option<u64>,
        preload: &PreloadCache,
        upload: &F,
    ) -> (r: Option<Texture<T>>)
        requires
            old(self).wf(),
            preload.wf(),
            forall|b: &PixelBuffer| upload.requires((b,)),
        ensures
            final(self).wf(),
            r is Some == image_hit(
                old(self).textures,
                *preload,
                old(self).main_cache,
                key@,
                current_size,
            ),
            r matches Some(t) ==> Some((t.width, t.height)) == resident_dims(
                old(self).textures,
                *preload,
                old(self).main_cache,
                key@,
                current_size,
            ),
            image_hit(final(self).textures, *preload, final(self).main_cache, key@, current_size)
                == image_hit(old(self).textures, *preload, old(self).main_cache, key@, current_size),
            final(self).main_cache == old(self).main_cache,
            final(self).coord() == old(self).coord(),
            final(self).content() == old(self).content(),
            final(self).shown_texture() == old(self).shown_texture(),
            final(self).stream_paths() == old(self).stream_paths(),
            forall|k: Seq<char>| k != key@ ==> lookup(final(self).textures.slots(), k) == lookup(
                old(self).textures.slots(),
                k,
            ),
    {
        if let Some(t) = self.get_cached_thumbnail(key, preload, upload) {
            return Some(t);
        }
        self.get_cached_image(key.as_str(), current_size)
    }

    /// The thumbnail texture for `key`: from the texture cache, or uploaded
    /// on this thread from the preloaded pixels and kept in the texture
    /// cache, so each thumbnail is uploaded once.
    pub fn get_cached_thumbnail<F: Fn(&PixelBuffer) -> T>(
        &mut self,
        key: &String,
        preload: &PreloadCache,
        upload: &F,
    ) -> (r: Option<Texture<T>>)
        requires
            old(self).wf(),
            preload.wf(),
            forall|b: &PixelBuffer| upload.requires((b,)),
        ensures
            final(self).wf(),
            r is Some == (has_key(old(self).texture_cache().slots(), key@) || has_key(
                preload.slots(),
                key@,
            )),
            r matches Some(t) ==> (lookup(final(self).texture_cache().slots(), key@) matches Some(c)
                && c.width == t.width && c.height == t.height),
            has_key(old(self).texture_cache().slots(), key@) ==> final(self).texture_cache() == old(self).texture_cache(),
            has_key(old(self).texture_cache().slots(), key@) ==> (r matches Some(t) && (lookup(
                old(self).texture_cache().slots(),
                key@,
            ) matches Some(c) && c.width == t.width && c.height == t.height)),
            !has_key(old(self).texture_cache().slots(), key@) && has_key(preload.slots(), key@) ==> (
            r matches Some(t) && (lookup(preload.slots(), key@) matches Some(b) && t.width == b.width
                && t.height == b.height)),
            has_key(final(self).texture_cache().slots(), key@) == (has_key(
                old(self).texture_cache().slots(),
                key@,
            ) || has_key(preload.slots(), key@)),
            final(self).main_cache() == old(self).main_cache(),
            final(self).coord() == old(self).coord(),
            final(self).content() == old(self).content(),
            forall|k: Seq<char>| k != key@ ==> lookup(final(self).texture_cache().slots(), k)
                == lookup(old(self).texture_cache().slots(), k),
            final(self).shown_texture() == old(self).shown_texture(),
            final(self).stream_paths() == old(self).stream_paths(),
    {
        if let Some(t) = self.textures.get(key.as_str()) {
            proof {
                assert(has_key(self.textures.slots(), key@));
            }
            return Some(Texture { handle: t.handle.clone(), width: t.width, height: t.height });
        }
        if let Some(pixels) = preload.get(key.as_str()) {
            proof {
                assert(has_key(preload.slots(), key@));
            }
            let handle = upload(pixels);
            let cached = Texture { handle: handle.clone(), width: pixels.width, height: pixels.height };
            proof {
                lemma_upsert(self.textures.slots(), *key, cached);
            }
            self.textures.insert(key.clone(), cached);
            return Some(Texture { handle, width: pixels.width, height: pixels.height });
        }
        None
    }

    /// The full preview cached for `key`, if the file's current byte length
    /// (`None` when unreadable) still matches.
    pub fn get_cached_image(&self, key: &str, current_size: Option<u64>) -> (r: Option<Texture<T>>)
        requires
            self.wf(),
        ensures
            match r {
                Some(t) => (valid_entry(self.main_cache().slots(), key@, current_size) matches Some(
                    e,
                ) && e.width == t.width && e.height == t.height),
                None => valid_entry(self.main_cache().slots(), key@, current_size) is None,
            },
    {
        match self.main_cache.get_cached_image(key, current_size) {
            Some(e) => Some(Texture { handle: e.texture.clone(), width: e.width, height: e.height }),
            None => None,
        }
    }

    /// Whether a thumbnail for `key` is uploaded or preloaded.
    pub fn is_thumbnail_cached(&self, key: &str, preload: &PreloadCache) -> (r: bool)
        ensures
            r == (has_key(self.texture_cache().slots(), key@) || has_key(preload.slots(), key@)),
    {
        self.textures.contains(key) || preload.contains(key)
    }

    /// Whether a thumbnail for `path` should be queued for preloading: it is
    /// an image that is neither uploaded nor preloaded.
    pub fn should_request_thumbnail(&self, path: &str, preload: &PreloadCache) -> (r: bool)
        ensures
            r == (is_thumbnail_path(path@) && !has_key(self.texture_cache().slots(), path@)
                && !has_key(preload.slots(), path@)),
    {
        is_image_file(path) && !self.is_thumbnail_cached(path, preload)
    }
}

/// Requesting the same path twice with no frame update between starts at
/// most one decode: whatever the first request did, the second starts none.
pub proof fn lemma_repeat_request_starts_no_decode(
    c: Coord,
    p: Seq<char>,
    kind1: PreviewKind,
    hit1: bool,
    kind2: PreviewKind,
    hit2: bool,
)
    ensures
        request(request(c, p, kind1, hit1).0, p, kind2, hit2).1 != LoadStep::Decode,
        request(c, p, kind1, hit1).1 == LoadStep::Decode ==> request(
            request(c, p, kind1, hit1).0,
            p,
            kind2,
            hit2,
        ).1 == LoadStep::Deferred,
{
}

/// The latest request wins: when image `a` is being decoded and `b` is
/// requested before `a` resolves, then once `a`'s result arrives and, if `b`
/// needed a decode, `b`'s result too, `b` is the current path, nothing is in
/// flight, no image but `b`'s is shown, and `b`'s image is shown whenever it
/// was resident or decoded.
pub proof fn lemma_latest_request_wins(
    c: Coord,
    a: Seq<char>,
    b: Seq<char>,
    hit_a: bool,
    kind_b: PreviewKind,
    hit_b_deferred: bool,
    hit_b: bool,
    a_ok: bool,
    b_ok: bool,
    kind_after: PreviewKind,
    hit_after: bool,
)
    requires
        a != b,
        request(c, a, PreviewKind::Image, hit_a).1 == LoadStep::Decode,
    ensures
        ({
            let c1 = request(c, a, PreviewKind::Image, hit_a).0;
            let c2 = request(c1, b, kind_b, hit_b_deferred).0;
            let (c3, s3) = poll(c2, Some((a, a_ok)), kind_b, hit_b);
            let c4 = if s3 == LoadStep::Decode {
                poll(c3, Some((b, b_ok)), kind_after, hit_after).0
            } else {
                c3
            };
            &&& c4.current == Some(b)
            &&& !c4.loading
            &&& c4.shown is Some ==> c4.shown == Some(b)
            &&& kind_b == PreviewKind::Image && (hit_b || b_ok) ==> c4.shown == Some(b)
        }),
{
}

/// A decoded image kept in the full-preview cache while the cache has room
/// is resident for the next request of its path (as long as the file keeps
/// its byte length), so that request shows it without a second decode.
pub proof fn lemma_cached_image_needs_no_decode<T>(
    main: MainCache<T>,
    after: MainCache<T>,
    textures: TextureCache<T>,
    preload: PreloadCache,
    key: String,
    image: CachedImage<T>,
    c: Coord,
)
    requires
        main.wf(),
        main.slots().len() < main.spec_max_size() || has_key(main.slots(), key@),
        after.slots() == trimmed(
            sorted_upsert(main.slots(), key, image),
            main.spec_max_size() as int,
        ),
    ensures
        image_hit(textures, preload, after, key@, Some(image.file_size)),
        request(
            c,
            key@,
            PreviewKind::Image,
            image_hit(textures, preload, after, key@, Some(image.file_size)),
        ).1 != LoadStep::Decode,
{
    lemma_cached_image_found(main, key, image);
}

} // verus!
