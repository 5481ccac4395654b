//! Image-rendering jobs: the guard, settings handle, converter and
//! output of the image-output engine, and the high-level builder that
//! accumulates named options before submission.
//!
//! The image engine is a second process-global singleton with the same
//! lifecycle rules as the page engine; it keeps its own [`EngineCore`]
//! and its own [`CallbackRegistry`].  Unlike the page engine, an image
//! converter takes its one optional inline payload at creation instead
//! of through attached objects.

use vstd::pervasive::unreached;
use vstd::prelude::*;

use crate::engine::current_thread_id;
use crate::engine::release_view;
use crate::engine::teardown_view;
use crate::engine::EngineCore;
use crate::engine::EngineState;
use crate::engine::EngineView;
use crate::error::Error;
use crate::registry::CallbackRegistry;
use crate::settings::SettingsHandleView;
use crate::settings::SettingsMap;
use crate::text::bool_text;
use crate::text::bool_string;
use crate::text::contains_null;
use crate::text::decimal_digits;
use crate::text::has_interior_null;
use crate::text::u32_decimal;

verus! {

/// The token that stands for "the image engine is initialized".
/// Exactly one is handed out per process, by [`image_init`]; tearing it
/// down deinitializes the engine for the remainder of the process.  It
/// must stay on the thread that initialized the engine.
#[derive(Debug)]
pub struct ImageGuard {
    _private: (),
}

/// Bookkeeping for one native global-settings resource of the image
/// engine.
#[derive(Debug)]
pub struct ImageGlobalSettings {
    handle: usize,
    needs_delete: bool,
    applied: SettingsMap,
}

impl View for ImageGlobalSettings {
    type V = SettingsHandleView;

    closed spec fn view(&self) -> SettingsHandleView {
        SettingsHandleView {
            handle: self.handle,
            needs_delete: self.needs_delete,
            applied: self.applied@,
        }
    }
}

/// Bookkeeping for one native converter of the image engine.  It owns
/// the global settings it was built from, and the inline HTML payload
/// it was created with, if any.
#[derive(Debug)]
pub struct ImageConverter {
    handle: usize,
    global: ImageGlobalSettings,
    payload: Option<String>,
}

/// The mathematical state of an image converter.
pub struct ImageConverterView {
    pub handle: usize,
    pub global: SettingsHandleView,
    pub payload: Option<Seq<char>>,
}

impl View for ImageConverter {
    type V = ImageConverterView;

    closed spec fn view(&self) -> ImageConverterView {
        ImageConverterView {
            handle: self.handle,
            global: self.global@,
            payload: match self.payload {
                Some(p) => Some(p@),
                None => None,
            },
        }
    }
}

/// The converter built by consuming a global-settings handle with an
/// optional inline payload: it keeps the handle, with its release duty
/// cleared.
pub open spec fn spec_create_image_converter(
    s: SettingsHandleView,
    converter_handle: usize,
    payload: Option<Seq<char>>,
) -> ImageConverterView {
    ImageConverterView {
        handle: converter_handle,
        global: SettingsHandleView { handle: s.handle, needs_delete: false, applied: s.applied },
        payload: payload,
    }
}

/// Ownership-transfer law for the image engine: building a converter
/// clears the release duty of the consumed handle in the same step, so
/// the drop decision for it is always "do not release".
pub proof fn lemma_image_transfer_clears_release(
    s: SettingsHandleView,
    converter_handle: usize,
    payload: Option<Seq<char>>,
)
    ensures
        !spec_create_image_converter(s, converter_handle, payload).global.needs_delete,
{
}

/// Record an initialization attempt of the image engine, made by the
/// calling thread; `native_ok` reports whether the native
/// initialization call succeeded.  The caller must consult
/// [`EngineCore::can_initialize`] first and invoke the native primitive
/// only when it said yes.  Only the first attempt in a process yields a
/// guard; when the native call failed a guard is still yielded,
/// matching the native engine where a failed initialization is not
/// independently recoverable, and later use surfaces as
/// [`Error::NotInitialized`].
pub fn image_init(engine: &mut EngineCore, native_ok: bool) -> (r: Result<ImageGuard, Error>)
    ensures
        old(engine)@.init_attempted ==> ({
            &&& r matches Err(e) && e == Error::IllegalInit
            &&& final(engine)@ == old(engine)@
        }),
        !old(engine)@.init_attempted ==> ({
            &&& r is Ok
            &&& final(engine)@.init_attempted
            &&& native_ok ==> final(engine)@.state is Ready && final(engine)@.init_thread is Some
            &&& !native_ok ==> final(engine)@.state == old(engine)@.state
                && final(engine)@.init_thread == old(engine)@.init_thread
        }),
{
    let thread = current_thread_id();
    match engine.initialize(thread, native_ok) {
        Ok(()) => Ok(ImageGuard { _private: () }),
        Err(e) => Err(e),
    }
}

impl ImageGuard {
    /// Record the teardown of the image engine; the caller makes the
    /// native deinitialization call alongside and only logs its
    /// outcome.  After teardown every attempt to start a job fails
    /// with [`Error::NotInitialized`].
    pub fn teardown(self, engine: &mut EngineCore)
        ensures
            final(engine)@ == teardown_view(old(engine)@),
    {
        engine.deinitialize();
    }
}

impl ImageGlobalSettings {
    /// Gate the start of a new job from the calling thread: the
    /// thread-affinity check first, then the lifecycle gate, flipping
    /// `Ready` to `Busy` in the same step.  The caller may allocate
    /// the native global-settings resource only after this returns
    /// `Ok`; on every failure the engine is untouched.
    pub fn acquire(engine: &mut EngineCore) -> (r: Result<(), Error>)
        ensures
            r is Ok ==> old(engine)@.state is Ready && final(engine)@ == (EngineView {
                state: EngineState::Busy,
                init_attempted: old(engine)@.init_attempted,
                init_thread: old(engine)@.init_thread,
            }),
            r is Err ==> final(engine)@ == old(engine)@,
            r matches Err(Error::ThreadMismatch(expected, actual)) ==> old(engine)@.init_thread
                == Some(expected) && actual != expected,
            r == Err::<(), Error>(Error::NotInitialized) ==> (old(engine)@.state is New
                || old(engine)@.state is Dropped),
            r == Err::<(), Error>(Error::Blocked) ==> old(engine)@.state is Busy,
    {
        let thread = current_thread_id();
        engine.acquire_global(thread)
    }

    /// Wrap a freshly allocated native global-settings resource.  The
    /// handle owes the release of that resource until a converter is
    /// built from it.
    pub fn new(handle: usize) -> (s: ImageGlobalSettings)
        ensures
            s@ == (SettingsHandleView {
                handle: handle,
                needs_delete: true,
                applied: Map::<Seq<char>, Seq<char>>::empty(),
            }),
    {
        ImageGlobalSettings { handle, needs_delete: true, applied: SettingsMap::new() }
    }

    /// Record one global-setting assignment, where `native_accepted`
    /// reports whether the native engine accepted the pair.  A name or
    /// value with an embedded null never reaches the native engine and
    /// fails with [`Error::EncodingFailure`]; a rejected pair fails
    /// with [`Error::GlobalSettingFailure`]; in both cases nothing is
    /// recorded.  The caller makes the native call only for null-free
    /// pairs.
    pub fn set(&mut self, name: &str, value: &str, native_accepted: bool) -> (r: Result<(), Error>)
        ensures
            contains_null(name@) || contains_null(value@) ==> ({
                &&& r matches Err(Error::EncodingFailure(n, v)) && n@ == name@ && v@ == value@
                &&& final(self)@ == old(self)@
            }),
            !contains_null(name@) && !contains_null(value@) && !native_accepted ==> ({
                &&& r matches Err(Error::GlobalSettingFailure(n, v)) && n@ == name@ && v@
                    == value@
                &&& final(self)@ == old(self)@
            }),
            !contains_null(name@) && !contains_null(value@) && native_accepted ==> ({
                &&& r is Ok
                &&& final(self)@ == (SettingsHandleView {
                    handle: old(self)@.handle,
                    needs_delete: old(self)@.needs_delete,
                    applied: old(self)@.applied.insert(name@, value@),
                })
            }),
    {
        if has_interior_null(name) || has_interior_null(value) {
            return Err(Error::EncodingFailure(name.to_owned(), value.to_owned()));
        }
        if !native_accepted {
            return Err(Error::GlobalSettingFailure(name.to_owned(), value.to_owned()));
        }
        self.applied.insert(name.to_owned(), value.to_owned());
        Ok(())
    }

    /// Whether dropping this handle must release the native resource;
    /// false once a converter was built from it.
    pub fn needs_release(&self) -> (r: bool)
        ensures
            r == self@.needs_delete,
    {
        self.needs_delete
    }

    /// Consume this handle into a converter with no inline payload, in
    /// the same step clearing its release duty: the native converter
    /// now owns the settings resource.  The handle cannot be used
    /// again.
    pub fn create_converter(self, converter_handle: usize) -> (c: ImageConverter)
        ensures
            c@ == spec_create_image_converter(self@, converter_handle, None),
            c.transferred(),
    {
        let mut consumed = self;
        consumed.needs_delete = false;
        ImageConverter { handle: converter_handle, global: consumed, payload: None }
    }

    /// Consume this handle into a converter created with an inline HTML
    /// payload, in the same step clearing its release duty.
    pub fn create_converter_with_html(self, converter_handle: usize, html: &str) -> (c:
        ImageConverter)
        requires
            !contains_null(html@),
        ensures
            c@ == spec_create_image_converter(self@, converter_handle, Some(html@)),
            c.transferred(),
    {
        let mut consumed = self;
        consumed.needs_delete = false;
        ImageConverter {
            handle: converter_handle,
            global: consumed,
            payload: Some(html.to_owned()),
        }
    }
}

impl ImageConverter {
    /// The settings handle this converter consumed has its release duty
    /// cleared: the native engine owns that resource now.
    pub open spec fn transferred(&self) -> bool {
        !self@.global.needs_delete
    }

    /// Whether dropping the global-settings handle this converter
    /// consumed would have to release its native resource; always
    /// false, since building the converter transferred ownership to
    /// the native engine.
    pub fn global_needs_release(&self) -> (r: bool)
        ensures
            r == self@.global.needs_delete,
    {
        self.global.needs_release()
    }

    /// Register this job's identity in the callback registry with an
    /// empty message accumulator, immediately before the native
    /// conversion call.
    pub fn setup_callbacks(&self, registry: &mut CallbackRegistry)
        ensures
            final(registry)@ == old(registry)@.insert(self@.handle, Seq::<String>::empty()),
    {
        registry.register(self.handle);
    }

    /// Deregister this job's identity; idempotent, so it may run after
    /// the finished callback already resolved the entry.
    pub fn remove_callbacks(&self, registry: &mut CallbackRegistry)
        ensures
            final(registry)@ == old(registry)@.remove(self@.handle),
    {
        registry.remove(self.handle);
    }

    /// Resolve the conversion call that just returned; exactly as the
    /// page engine's converter does.  On every path the job's registry
    /// entry is gone afterwards; on success the engine stays busy and
    /// the output bundles the buffer with this converter; on failure
    /// the engine is released and the failure deposited by the
    /// finished callback is returned.
    pub fn convert(
        self,
        registry: &mut CallbackRegistry,
        engine: &mut EngineCore,
        native_ok: bool,
        received: Option<Result<(), Error>>,
        output: Vec<u8>,
    ) -> (r: Result<ImageOutput, Error>)
        requires
            !native_ok ==> received matches Some(Err(_)),
        ensures
            final(registry)@ == old(registry)@.remove(self@.handle),
            native_ok ==> final(engine)@ == old(engine)@,
            native_ok ==> (r matches Ok(out) && out@ == (ImageOutputView {
                data: output@,
                consumed: 0,
                converter: self@,
            })),
            !native_ok ==> final(engine)@ == release_view(old(engine)@),
            !native_ok ==> (received matches Some(Err(e)) && r == Err::<ImageOutput, Error>(e)),
    {
        self.remove_callbacks(registry);
        if native_ok {
            Ok(ImageOutput { data: output, pos: 0, converter: self })
        } else {
            engine.release_output();
            match received {
                Some(Err(e)) => Err(e),
                _ => unreached(),
            }
        }
    }
}

/// The output of a successful image-rendering job: the output bytes
/// bundled with the converter that produced them.  Releasing it is what
/// makes the engine ready for the next job.
#[derive(Debug)]
pub struct ImageOutput {
    data: Vec<u8>,
    pos: usize,
    converter: ImageConverter,
}

/// The mathematical state of an image output handle.
pub struct ImageOutputView {
    pub data: Seq<u8>,
    pub consumed: int,
    pub converter: ImageConverterView,
}

impl View for ImageOutput {
    type V = ImageOutputView;

    closed spec fn view(&self) -> ImageOutputView {
        ImageOutputView { data: self.data@, consumed: self.pos as int, converter: self.converter@ }
    }
}

impl ImageOutput {
    /// How many output bytes a read can still yield.
    pub fn remaining(&self) -> (n: usize)
        ensures
            n == if self@.consumed <= self@.data.len() {
                self@.data.len() - self@.consumed
            } else {
                0
            },
    {
        if self.pos <= self.data.len() {
            self.data.len() - self.pos
        } else {
            0
        }
    }

    /// Read up to `max` of the next output bytes.  Reads are sequential
    /// and single-pass: each read consumes what it returns, and once
    /// everything is consumed further reads return nothing.
    pub fn read(&mut self, max: usize) -> (chunk: Vec<u8>)
        ensures
            final(self)@.data == old(self)@.data,
            final(self)@.converter == old(self)@.converter,
            ({
                let len = old(self)@.data.len() as int;
                let start = if old(self)@.consumed <= len {
                    old(self)@.consumed
                } else {
                    len
                };
                let end = if start + max <= len {
                    start + max
                } else {
                    len
                };
                &&& chunk@ == old(self)@.data.subrange(start, end)
                &&& final(self)@.consumed == end
            }),
    {
        let len = self.data.len();
        let start = if self.pos <= len {
            self.pos
        } else {
            len
        };
        let avail = len - start;
        let take = if max <= avail {
            max
        } else {
            avail
        };
        let mut chunk: Vec<u8> = Vec::new();
        let mut k: usize = 0;
        while k < take
            invariant
                k <= take,
                len == self.data@.len(),
                start + take <= len,
                chunk@ == self.data@.subrange(start as int, start + k),
            decreases take - k,
        {
            chunk.push(self.data[start + k]);
            proof {
                assert(chunk@ =~= self.data@.subrange(start as int, start + k + 1));
            }
            k += 1;
        }
        self.pos = start + take;
        proof {
            assert(chunk@ =~= old(self)@.data.subrange(
                start as int,
                if start + max <= self.data@.len() {
                    start + max
                } else {
                    self.data@.len() as int
                },
            ));
        }
        chunk
    }

    /// Release the output: the engine is ready for the next job,
    /// however many bytes were actually read.  The caller tears the
    /// native converter down alongside.
    pub fn release(self, engine: &mut EngineCore)
        ensures
            final(engine)@ == release_view(old(engine)@),
    {
        engine.release_output();
    }
}

/// A thin wrapper over the image engine's guard that hands out option
/// builders.
#[derive(Debug)]
pub struct ImageApplication {
    _guard: ImageGuard,
}

impl ImageApplication {
    /// Initialize the image engine; the same single-shot rule as
    /// [`image_init`], which this wraps.
    pub fn new(engine: &mut EngineCore, native_ok: bool) -> (r: Result<ImageApplication, Error>)
        ensures
            old(engine)@.init_attempted ==> ({
                &&& r matches Err(e) && e == Error::IllegalInit
                &&& final(engine)@ == old(engine)@
            }),
            !old(engine)@.init_attempted ==> ({
                &&& r is Ok
                &&& final(engine)@.init_attempted
                &&& native_ok ==> final(engine)@.state is Ready
                    && final(engine)@.init_thread is Some
                &&& !native_ok ==> final(engine)@.state == old(engine)@.state
                    && final(engine)@.init_thread == old(engine)@.init_thread
            }),
    {
        match image_init(engine, native_ok) {
            Ok(guard) => Ok(ImageApplication { _guard: guard }),
            Err(e) => Err(e),
        }
    }

    /// Start an option builder with no options set.
    pub fn builder(&self) -> (b: ImageBuilder)
        ensures
            b@ == Map::<Seq<char>, Seq<char>>::empty(),
    {
        ImageBuilder::new()
    }
}

/// Image formats the image engine can produce.
#[derive(Clone, Copy, Debug)]
pub enum ImageFormat {
    Jpg,
    Png,
    Bmp,
    Svg,
}

/// The option text of an image format.
pub open spec fn format_text(f: ImageFormat) -> Seq<char> {
    match f {
        ImageFormat::Jpg => "jpg"@,
        ImageFormat::Png => "png"@,
        ImageFormat::Bmp => "bmp"@,
        ImageFormat::Svg => "svg"@,
    }
}

impl ImageFormat {
    /// Render the format as the string the engine expects.
    pub fn value(&self) -> (s: &'static str)
        ensures
            s@ == format_text(*self),
    {
        match self {
            ImageFormat::Jpg => "jpg",
            ImageFormat::Png => "png",
            ImageFormat::Bmp => "bmp",
            ImageFormat::Svg => "svg",
        }
    }
}

/// Accumulates named global options for an image job before submission.
/// Its view is the mapping of option names to option values that will
/// be pushed into a global-settings handle when a job is built.
#[derive(Debug)]
pub struct ImageBuilder {
    gs: SettingsMap,
}

impl View for ImageBuilder {
    type V = Map<Seq<char>, Seq<char>>;

    closed spec fn view(&self) -> Map<Seq<char>, Seq<char>> {
        self.gs@
    }
}

impl ImageBuilder {
    /// A builder with no options set.
    pub fn new() -> (b: ImageBuilder)
        ensures
            b@ == Map::<Seq<char>, Seq<char>>::empty(),
    {
        ImageBuilder { gs: SettingsMap::new() }
    }

    /// The width of the virtual screen used to render, in pixels.
    pub fn screen_width(&mut self, screen_width: u32) -> (ret: &mut ImageBuilder)
        ensures
            (*ret)@ == old(self)@.insert("screenWidth"@, decimal_digits(screen_width as nat)),
            *final(self) == *final(ret),
    {
        self.gs.insert("screenWidth".to_owned(), u32_decimal(screen_width));
        self
    }

    /// Compression quality in percent, used when the format is `Jpg`.
    pub fn image_quality(&mut self, image_quality: u32) -> (ret: &mut ImageBuilder)
        ensures
            (*ret)@ == old(self)@.insert("imageQuality"@, decimal_digits(image_quality as nat)),
            *final(self) == *final(ret),
    {
        self.gs.insert("imageQuality".to_owned(), u32_decimal(image_quality));
        self
    }

    /// When producing a `Png` or `Svg`, make the white background
    /// transparent.
    pub fn transparent(&mut self, transparent: bool) -> (ret: &mut ImageBuilder)
        ensures
            (*ret)@ == old(self)@.insert("transparent"@, bool_text(transparent)),
            *final(self) == *final(ret),
    {
        self.gs.insert("transparent".to_owned(), bool_string(transparent).to_owned());
        self
    }

    /// The output format to produce.
    pub fn format(&mut self, format: ImageFormat) -> (ret: &mut ImageBuilder)
        ensures
            (*ret)@ == old(self)@.insert("fmt"@, format_text(format)),
            *final(self) == *final(ret),
    {
        self.gs.insert("fmt".to_owned(), format.value().to_owned());
        self
    }

    /// Set a global option the builder has no dedicated method for.
    /// The name and value go to the native engine verbatim when the job
    /// is built; options it does not know can make it misbehave, which
    /// is the caller's risk to take.
    pub fn global_setting(&mut self, name: String, value: String) -> (ret: &mut ImageBuilder)
        ensures
            (*ret)@ == old(self)@.insert(name@, value@),
            *final(self) == *final(ret),
    {
        self.gs.insert(name, value);
        self
    }

    /// The accumulated options, for pushing into a global-settings
    /// handle when the job is built.
    pub fn settings(&self) -> (m: &SettingsMap)
        ensures
            m@ == self@,
    {
        &self.gs
    }
}

} // verus!
