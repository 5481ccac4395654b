//! Page-rendering jobs: the guard, settings handles, converter and
//! output of the page-output engine.
//!
//! The native calls themselves happen outside this library: a thin
//! shell checks each gate here first, makes the native call only on
//! `Ok`, and passes the outcome back in as a plain argument, with
//! native handles carried as plain numbers.  The functions here hold
//! the rules: when initialization may run, when a job may start, who
//! owes the release of each native resource, and how the callback
//! traffic of one job resolves into its synchronous result.

use vstd::pervasive::unreached;
use vstd::prelude::*;

use crate::engine::current_thread_id;
use crate::engine::release_view;
use crate::engine::teardown_view;
use crate::engine::EngineCore;
use crate::engine::EngineState;
use crate::engine::EngineView;
use crate::error::Error;
use crate::registry::CallbackRegistry;
use crate::settings::SettingsHandleView;
use crate::settings::SettingsMap;
use crate::text::contains_null;
use crate::text::has_interior_null;

verus! {

/// The token that stands for "the page engine is initialized".  Exactly
/// one is handed out per process, by [`pdf_init`]; tearing it down
/// deinitializes the engine for the remainder of the process.  It must
/// stay on the thread that initialized the engine.
#[derive(Debug)]
pub struct PdfGuard {
    _private: (),
}

/// Bookkeeping for one native global-settings resource of the page
/// engine.
#[derive(Debug)]
pub struct PdfGlobalSettings {
    handle: usize,
    needs_delete: bool,
    applied: SettingsMap,
}

impl View for PdfGlobalSettings {
    type V = SettingsHandleView;

    closed spec fn view(&self) -> SettingsHandleView {
        SettingsHandleView {
            handle: self.handle,
            needs_delete: self.needs_delete,
            applied: self.applied@,
        }
    }
}

/// Bookkeeping for one native object-settings resource of the page
/// engine: the per-source settings of one page, URL or HTML fragment.
#[derive(Debug)]
pub struct PdfObjectSettings {
    handle: usize,
    needs_delete: bool,
    applied: SettingsMap,
}

impl View for PdfObjectSettings {
    type V = SettingsHandleView;

    closed spec fn view(&self) -> SettingsHandleView {
        SettingsHandleView {
            handle: self.handle,
            needs_delete: self.needs_delete,
            applied: self.applied@,
        }
    }
}

/// One source attached to a converter: the object settings it was
/// attached with (ownership now with the native engine) and the inline
/// HTML payload, if it was attached with one.
#[derive(Debug)]
pub struct AttachedObject {
    settings: PdfObjectSettings,
    payload: Option<String>,
}

/// The mathematical state of an attached source.
pub struct AttachedObjectView {
    pub settings: SettingsHandleView,
    pub payload: Option<Seq<char>>,
}

impl View for AttachedObject {
    type V = AttachedObjectView;

    closed spec fn view(&self) -> AttachedObjectView {
        AttachedObjectView {
            settings: self.settings@,
            payload: match self.payload {
                Some(p) => Some(p@),
                None => None,
            },
        }
    }
}

/// Bookkeeping for one native converter of the page engine.  It owns
/// the global settings it was built from (the native engine releases
/// that resource with the converter, so the handle's own release duty
/// is cleared) and the sources attached so far.
#[derive(Debug)]
pub struct PdfConverter {
    handle: usize,
    global: PdfGlobalSettings,
    objects: Vec<AttachedObject>,
}

/// The mathematical state of a converter.
pub struct PdfConverterView {
    pub handle: usize,
    pub global: SettingsHandleView,
    pub objects: Seq<AttachedObjectView>,
}

impl View for PdfConverter {
    type V = PdfConverterView;

    closed spec fn view(&self) -> PdfConverterView {
        PdfConverterView {
            handle: self.handle,
            global: self.global@,
            objects: self.objects@.map_values(|o: AttachedObject| o@),
        }
    }
}

/// The source a job will render for an attached object, under the
/// native engine's precedence rule: a non-empty inline payload wins over
/// the `page` setting, but an empty payload falls back to the `page`
/// setting — the native engine treats an empty string like no payload
/// at all.  This fallback is a pinned quirk of the native engine, kept
/// here deliberately.
#[derive(Debug)]
pub enum PageSource {
    /// A non-empty inline HTML payload.
    Inline(String),
    /// The value of the `page` setting: a URL or local path.
    PageSetting(String),
    /// Neither an inline payload nor a `page` setting.
    Unspecified,
}

/// The mathematical form of [`PageSource`].
pub enum PageSourceView {
    Inline(Seq<char>),
    PageSetting(Seq<char>),
    Unspecified,
}

impl View for PageSource {
    type V = PageSourceView;

    closed spec fn view(&self) -> PageSourceView {
        match self {
            PageSource::Inline(p) => PageSourceView::Inline(p@),
            PageSource::PageSetting(p) => PageSourceView::PageSetting(p@),
            PageSource::Unspecified => PageSourceView::Unspecified,
        }
    }
}

/// The converter built by consuming a global-settings handle: it keeps
/// the handle, with its release duty cleared, and starts with no
/// attached objects.
pub open spec fn spec_create_converter(s: SettingsHandleView, converter_handle: usize) -> PdfConverterView {
    PdfConverterView {
        handle: converter_handle,
        global: SettingsHandleView { handle: s.handle, needs_delete: false, applied: s.applied },
        objects: Seq::<AttachedObjectView>::empty(),
    }
}

/// The attached object made by consuming object settings with a `page`
/// source and no inline payload.
pub open spec fn spec_attach_page(s: SettingsHandleView, page: Seq<char>) -> AttachedObjectView {
    AttachedObjectView {
        settings: SettingsHandleView {
            handle: s.handle,
            needs_delete: false,
            applied: s.applied.insert("page"@, page),
        },
        payload: None,
    }
}

/// The attached object made by consuming object settings with an inline
/// HTML payload.
pub open spec fn spec_attach_html(s: SettingsHandleView, html: Seq<char>) -> AttachedObjectView {
    AttachedObjectView {
        settings: SettingsHandleView {
            handle: s.handle,
            needs_delete: false,
            applied: s.applied,
        },
        payload: Some(html),
    }
}

/// Ownership-transfer law: every consuming operation clears the release
/// duty of the handle it consumes in the same step, so the drop
/// decision for a transferred handle is always "do not release" — a
/// release call for such a handle happens zero times.
pub proof fn lemma_transfer_clears_release(
    s: SettingsHandleView,
    converter_handle: usize,
    page: Seq<char>,
    html: Seq<char>,
)
    ensures
        !spec_create_converter(s, converter_handle).global.needs_delete,
        !spec_attach_page(s, page).settings.needs_delete,
        !spec_attach_html(s, html).settings.needs_delete,
{
}

/// The precedence rule for one attached object.
pub open spec fn spec_object_source(o: AttachedObjectView) -> PageSourceView {
    if o.payload matches Some(p) && p.len() > 0 {
        PageSourceView::Inline(o.payload->0)
    } else if o.settings.applied.contains_key("page"@) {
        PageSourceView::PageSetting(o.settings.applied["page"@])
    } else {
        PageSourceView::Unspecified
    }
}

/// Record an initialization attempt of the page engine, made by the
/// calling thread; `native_ok` reports whether the native initialization
/// call succeeded.  The caller must consult
/// [`EngineCore::can_initialize`] first and invoke the native primitive
/// only when it said yes.  Only the first attempt in a process yields a
/// guard; when the native call failed a guard is still yielded, matching
/// the native engine where a failed initialization is not independently
/// recoverable, and later use surfaces as [`Error::NotInitialized`].
pub fn pdf_init(engine: &mut EngineCore, native_ok: bool) -> (r: Result<PdfGuard, Error>)
    ensures
        old(engine)@.init_attempted ==> ({
            &&& r matches Err(e) && e == Error::IllegalInit
            &&& final(engine)@ == old(engine)@
        }),
        !old(engine)@.init_attempted ==> ({
            &&& r is Ok
            &&& final(engine)@.init_attempted
            &&& native_ok ==> final(engine)@.state is Ready && final(engine)@.init_thread is Some
            &&& !native_ok ==> final(engine)@.state == old(engine)@.state
                && final(engine)@.init_thread == old(engine)@.init_thread
        }),
{
    let thread = current_thread_id();
    match engine.initialize(thread, native_ok) {
        Ok(()) => Ok(PdfGuard { _private: () }),
        Err(e) => Err(e),
    }
}

impl PdfGuard {
    /// Record the teardown of the page engine; the caller makes the
    /// native deinitialization call alongside and only logs its
    /// outcome, since nothing can be recovered at this point.  After
    /// teardown every attempt to start a job fails with
    /// [`Error::NotInitialized`].
    pub fn teardown(self, engine: &mut EngineCore)
        ensures
            final(engine)@ == teardown_view(old(engine)@),
    {
        engine.deinitialize();
    }
}

impl PdfGlobalSettings {
    /// Gate the start of a new job from the calling thread: the
    /// thread-affinity check first, then the lifecycle gate, flipping
    /// `Ready` to `Busy` in the same step.  The caller may allocate the
    /// native global-settings resource only after this returns `Ok`;
    /// on every failure the engine is untouched.
    pub fn acquire(engine: &mut EngineCore) -> (r: Result<(), Error>)
        ensures
            r is Ok ==> old(engine)@.state is Ready && final(engine)@ == (EngineView {
                state: EngineState::Busy,
                init_attempted: old(engine)@.init_attempted,
                init_thread: old(engine)@.init_thread,
            }),
            r is Err ==> final(engine)@ == old(engine)@,
            r matches Err(Error::ThreadMismatch(expected, actual)) ==> old(engine)@.init_thread
                == Some(expected) && actual != expected,
            r == Err::<(), Error>(Error::NotInitialized) ==> (old(engine)@.state is New
                || old(engine)@.state is Dropped),
            r == Err::<(), Error>(Error::Blocked) ==> old(engine)@.state is Busy,
    {
        let thread = current_thread_id();
        engine.acquire_global(thread)
    }

    /// Wrap a freshly allocated native global-settings resource.  The
    /// handle owes the release of that resource until a converter is
    /// built from it.
    pub fn new(handle: usize) -> (s: PdfGlobalSettings)
        ensures
            s@ == (SettingsHandleView {
                handle: handle,
                needs_delete: true,
                applied: Map::<Seq<char>, Seq<char>>::empty(),
            }),
    {
        PdfGlobalSettings { handle, needs_delete: true, applied: SettingsMap::new() }
    }

    /// Record one global-setting assignment, where `native_accepted`
    /// reports whether the native engine accepted the pair.  A name or
    /// value with an embedded null never reaches the native engine and
    /// fails with [`Error::EncodingFailure`]; a rejected pair fails
    /// with [`Error::GlobalSettingFailure`]; in both cases nothing is
    /// recorded.  The caller makes the native call only for
    /// null-free pairs.
    pub fn set(&mut self, name: &str, value: &str, native_accepted: bool) -> (r: Result<(), Error>)
        ensures
            contains_null(name@) || contains_null(value@) ==> ({
                &&& r matches Err(Error::EncodingFailure(n, v)) && n@ == name@ && v@ == value@
                &&& final(self)@ == old(self)@
            }),
            !contains_null(name@) && !contains_null(value@) && !native_accepted ==> ({
                &&& r matches Err(Error::GlobalSettingFailure(n, v)) && n@ == name@ && v@
                    == value@
                &&& final(self)@ == old(self)@
            }),
            !contains_null(name@) && !contains_null(value@) && native_accepted ==> ({
                &&& r is Ok
                &&& final(self)@ == (SettingsHandleView {
                    handle: old(self)@.handle,
                    needs_delete: old(self)@.needs_delete,
                    applied: old(self)@.applied.insert(name@, value@),
                })
            }),
    {
        if has_interior_null(name) || has_interior_null(value) {
            return Err(Error::EncodingFailure(name.to_owned(), value.to_owned()));
        }
        if !native_accepted {
            return Err(Error::GlobalSettingFailure(name.to_owned(), value.to_owned()));
        }
        self.applied.insert(name.to_owned(), value.to_owned());
        Ok(())
    }

    /// Whether dropping this handle must release the native resource.
    /// A handle consumed into a converter answers false: the native
    /// engine owns the resource then, and releasing it again would be a
    /// double free.
    pub fn needs_release(&self) -> (r: bool)
        ensures
            r == self@.needs_delete,
    {
        self.needs_delete
    }

    /// Consume this handle into a converter, in the same step clearing
    /// its release duty: the native converter now owns the settings
    /// resource and releases it on its own teardown.  The handle cannot
    /// be used again.
    pub fn create_converter(self, converter_handle: usize) -> (c: PdfConverter)
        ensures
            c@ == spec_create_converter(self@, converter_handle),
            c.transferred(),
    {
        let mut consumed = self;
        consumed.needs_delete = false;
        let c = PdfConverter { handle: converter_handle, global: consumed, objects: Vec::new() };
        proof {
            assert(c@.objects =~= Seq::<AttachedObjectView>::empty());
        }
        c
    }
}

impl PdfObjectSettings {
    /// Wrap a freshly allocated native object-settings resource.
    pub fn new(handle: usize) -> (s: PdfObjectSettings)
        ensures
            s@ == (SettingsHandleView {
                handle: handle,
                needs_delete: true,
                applied: Map::<Seq<char>, Seq<char>>::empty(),
            }),
    {
        PdfObjectSettings { handle, needs_delete: true, applied: SettingsMap::new() }
    }

    /// Record one object-setting assignment; exactly as
    /// [`PdfGlobalSettings::set`], with rejected pairs failing as
    /// [`Error::ObjectSettingFailure`].
    pub fn set(&mut self, name: &str, value: &str, native_accepted: bool) -> (r: Result<(), Error>)
        ensures
            contains_null(name@) || contains_null(value@) ==> ({
                &&& r matches Err(Error::EncodingFailure(n, v)) && n@ == name@ && v@ == value@
                &&& final(self)@ == old(self)@
            }),
            !contains_null(name@) && !contains_null(value@) && !native_accepted ==> ({
                &&& r matches Err(Error::ObjectSettingFailure(n, v)) && n@ == name@ && v@
                    == value@
                &&& final(self)@ == old(self)@
            }),
            !contains_null(name@) && !contains_null(value@) && native_accepted ==> ({
                &&& r is Ok
                &&& final(self)@ == (SettingsHandleView {
                    handle: old(self)@.handle,
                    needs_delete: old(self)@.needs_delete,
                    applied: old(self)@.applied.insert(name@, value@),
                })
            }),
    {
        if has_interior_null(name) || has_interior_null(value) {
            return Err(Error::EncodingFailure(name.to_owned(), value.to_owned()));
        }
        if !native_accepted {
            return Err(Error::ObjectSettingFailure(name.to_owned(), value.to_owned()));
        }
        self.applied.insert(name.to_owned(), value.to_owned());
        Ok(())
    }

    /// Whether dropping this handle must release the native resource;
    /// false once the handle was attached to a converter.
    pub fn needs_release(&self) -> (r: bool)
        ensures
            r == self@.needs_delete,
    {
        self.needs_delete
    }
}

impl PdfConverter {
    /// Every settings handle this converter consumed has its release
    /// duty cleared: the native engine owns those resources now, and a
    /// wrapper that released them again would double-free.
    pub open spec fn transferred(&self) -> bool {
        &&& !self@.global.needs_delete
        &&& forall|i: int|
            0 <= i < self@.objects.len() ==> !(#[trigger] self@.objects[i]).settings.needs_delete
    }

    /// Whether dropping the global-settings handle this converter
    /// consumed would have to release its native resource; always
    /// false, since building the converter transferred ownership to
    /// the native engine.
    pub fn global_needs_release(&self) -> (r: bool)
        ensures
            r == self@.global.needs_delete,
    {
        self.global.needs_release()
    }

    /// Attach a source by URL or local path: records the `page` setting
    /// on the object settings and consumes them into the converter with
    /// no inline payload, clearing their release duty in the same step.
    /// The caller pushes the `page` pair into the native engine before
    /// the transfer and does not continue past a rejection.
    pub fn add_page_object(&mut self, pdf_object: PdfObjectSettings, page: &str)
        requires
            !contains_null(page@),
        ensures
            final(self)@.handle == old(self)@.handle,
            final(self)@.global == old(self)@.global,
            final(self)@.objects == old(self)@.objects.push(spec_attach_page(pdf_object@, page@)),
            old(self).transferred() ==> final(self).transferred(),
    {
        let mut obj = pdf_object;
        obj.applied.insert("page".to_owned(), page.to_owned());
        obj.needs_delete = false;
        self.objects.push(AttachedObject { settings: obj, payload: None });
        proof {
            assert(final(self)@.objects =~= old(self)@.objects.push(
                spec_attach_page(pdf_object@, page@),
            ));
        }
    }

    /// Attach a source with an inline HTML payload, consuming the
    /// object settings and clearing their release duty in the same
    /// step.  A non-empty payload takes precedence over any `page`
    /// setting; an empty payload falls back to the `page` setting (see
    /// [`PageSource`]).
    pub fn add_html_object(&mut self, pdf_object: PdfObjectSettings, html: &str)
        requires
            !contains_null(html@),
        ensures
            final(self)@.handle == old(self)@.handle,
            final(self)@.global == old(self)@.global,
            final(self)@.objects == old(self)@.objects.push(spec_attach_html(pdf_object@, html@)),
            old(self).transferred() ==> final(self).transferred(),
    {
        let mut obj = pdf_object;
        obj.needs_delete = false;
        self.objects.push(AttachedObject { settings: obj, payload: Some(html.to_owned()) });
        proof {
            assert(final(self)@.objects =~= old(self)@.objects.push(
                spec_attach_html(pdf_object@, html@),
            ));
        }
    }

    /// The source the native engine will render for attached object
    /// `i`, under its payload-precedence rule with the empty-payload
    /// fallback.
    pub fn object_source(&self, i: usize) -> (src: PageSource)
        requires
            i < self@.objects.len(),
        ensures
            src@ == spec_object_source(self@.objects[i as int]),
    {
        match &self.objects[i].payload {
            Some(p) => {
                if !p.as_str().is_empty() {
                    return PageSource::Inline(p.clone());
                }
            },
            None => {},
        }
        match self.objects[i].settings.applied.get("page") {
            Some(v) => PageSource::PageSetting(v.clone()),
            None => PageSource::Unspecified,
        }
    }

    /// Register this job's identity in the callback registry with an
    /// empty message accumulator, immediately before the native
    /// conversion call.
    pub fn setup_callbacks(&self, registry: &mut CallbackRegistry)
        ensures
            final(registry)@ == old(registry)@.insert(self@.handle, Seq::<String>::empty()),
    {
        registry.register(self.handle);
    }

    /// Deregister this job's identity; idempotent, so it may run after
    /// the finished callback already resolved the entry.
    pub fn remove_callbacks(&self, registry: &mut CallbackRegistry)
        ensures
            final(registry)@ == old(registry)@.remove(self@.handle),
    {
        registry.remove(self.handle);
    }

    /// Resolve the conversion call that just returned.  `native_ok` is
    /// the call's own return value; `received` is what the finished
    /// callback deposited through [`CallbackRegistry::finish`];
    /// `output` is the engine's output buffer, read only on success.
    /// On every path the job's registry entry is gone afterwards.  On
    /// success the engine stays busy and the output handle bundles the
    /// buffer with the converter that owns it; on failure the converter
    /// is torn down, the engine is released for the next job, and the
    /// failure deposited by the callback is returned.  A failing call
    /// without a deposited failure would be an internal inconsistency
    /// of the native engine, which the caller must treat as fatal.
    pub fn convert(
        self,
        registry: &mut CallbackRegistry,
        engine: &mut EngineCore,
        native_ok: bool,
        received: Option<Result<(), Error>>,
        output: Vec<u8>,
    ) -> (r: Result<PdfOutput, Error>)
        requires
            !native_ok ==> received matches Some(Err(_)),
        ensures
            final(registry)@ == old(registry)@.remove(self@.handle),
            native_ok ==> final(engine)@ == old(engine)@,
            native_ok ==> (r matches Ok(out) && out@ == (PdfOutputView {
                data: output@,
                consumed: 0,
                converter: self@,
            })),
            !native_ok ==> final(engine)@ == release_view(old(engine)@),
            !native_ok ==> (received matches Some(Err(e)) && r == Err::<PdfOutput, Error>(e)),
    {
        self.remove_callbacks(registry);
        if native_ok {
            Ok(PdfOutput { data: output, pos: 0, converter: self })
        } else {
            engine.release_output();
            match received {
                Some(Err(e)) => Err(e),
                _ => unreached(),
            }
        }
    }
}

/// The output of a successful page-rendering job: the output bytes
/// bundled with the converter that produced them, so the native buffer
/// outlives every read.  Releasing it is what makes the engine ready
/// for the next job.
#[derive(Debug)]
pub struct PdfOutput {
    data: Vec<u8>,
    pos: usize,
    converter: PdfConverter,
}

/// The mathematical state of an output handle: the output bytes, how
/// many of them have been consumed by reads, and the converter the
/// handle keeps alive.
pub struct PdfOutputView {
    pub data: Seq<u8>,
    pub consumed: int,
    pub converter: PdfConverterView,
}

impl View for PdfOutput {
    type V = PdfOutputView;

    closed spec fn view(&self) -> PdfOutputView {
        PdfOutputView { data: self.data@, consumed: self.pos as int, converter: self.converter@ }
    }
}

impl PdfOutput {
    /// How many output bytes a read can still yield.
    pub fn remaining(&self) -> (n: usize)
        ensures
            n == if self@.consumed <= self@.data.len() {
                self@.data.len() - self@.consumed
            } else {
                0
            },
    {
        if self.pos <= self.data.len() {
            self.data.len() - self.pos
        } else {
            0
        }
    }

    /// Read up to `max` of the next output bytes.  Reads are sequential
    /// and single-pass: each read consumes what it returns, and once
    /// everything is consumed further reads return nothing.
    pub fn read(&mut self, max: usize) -> (chunk: Vec<u8>)
        ensures
            final(self)@.data == old(self)@.data,
            final(self)@.converter == old(self)@.converter,
            ({
                let len = old(self)@.data.len() as int;
                let start = if old(self)@.consumed <= len {
                    old(self)@.consumed
                } else {
                    len
                };
                let end = if start + max <= len {
                    start + max
                } else {
                    len
                };
                &&& chunk@ == old(self)@.data.subrange(start, end)
                &&& final(self)@.consumed == end
            }),
    {
        let len = self.data.len();
        let start = if self.pos <= len {
            self.pos
        } else {
            len
        };
        let avail = len - start;
        let take = if max <= avail {
            max
        } else {
            avail
        };
        let mut chunk: Vec<u8> = Vec::new();
        let mut k: usize = 0;
        while k < take
            invariant
                k <= take,
                len == self.data@.len(),
                start + take <= len,
                chunk@ == self.data@.subrange(start as int, start + k),
            decreases take - k,
        {
            chunk.push(self.data[start + k]);
            proof {
                assert(chunk@ =~= self.data@.subrange(start as int, start + k + 1));
            }
            k += 1;
        }
        self.pos = start + take;
        proof {
            assert(chunk@ =~= old(self)@.data.subrange(
                start as int,
                if start + max <= self.data@.len() {
                    start + max
                } else {
                    self.data@.len() as int
                },
            ));
        }
        chunk
    }

    /// Release the output: the engine is ready for the next job,
    /// however many bytes were actually read.  The caller tears the
    /// native converter down alongside.
    pub fn release(self, engine: &mut EngineCore)
        ensures
            final(engine)@ == release_view(old(engine)@),
    {
        engine.release_output();
    }
}

} // verus!
