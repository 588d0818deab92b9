//! The bundle store: a write-once cell for the JavaScript source that
//! every worker evaluates as its first script.
//!
//! The store is set exactly once, before the first worker initializes its
//! runtime; a second initialization fails without mutating anything, and
//! reading requires the store to be initialized. One initializer prepends
//! the browser polyfills (stub implementations of browser globals that a
//! bare JS runtime lacks); the raw initializer stores the source as given.
//! The process-wide cell that shares one store across threads is plumbing
//! that lives outside, holding a value of this type.

use vstd::prelude::*;
use crate::error::{SsrError, SsrResult};

verus! {

/// Stub implementations of browser APIs (window, document, timers,
/// storage, observers) that do not exist in a bare JS runtime, prepended so
/// that ordinary front-end bundles evaluate without reference errors.
pub const BROWSER_POLYFILLS: &'static str = r#"
// =========================================
// Rusty-SSR Browser Polyfills
// =========================================

// Basic globals
globalThis.window = globalThis;
globalThis.self = globalThis;

// Minimal timers (no real scheduling; executes immediately)
let __rustyTimerId = 0;
globalThis.setTimeout = (cb, _ms, ...args) => {
    __rustyTimerId += 1;
    if (typeof cb === 'function') { cb(...args); }
    return __rustyTimerId;
};
globalThis.clearTimeout = () => {};
globalThis.setInterval = (cb, _ms, ...args) => {
    __rustyTimerId += 1;
    if (typeof cb === 'function') { cb(...args); }
    return __rustyTimerId;
};
globalThis.clearInterval = () => {};

// Document mock
globalThis.document = {
    createElement: (tag) => ({
        tagName: tag.toUpperCase(),
        style: {},
        setAttribute: () => {},
        getAttribute: () => null,
        appendChild: () => {},
        removeChild: () => {},
        addEventListener: () => {},
        removeEventListener: () => {},
        classList: {
            add: () => {},
            remove: () => {},
            toggle: () => {},
            contains: () => false
        }
    }),
    createTextNode: (text) => ({ textContent: text }),
    getElementById: () => null,
    querySelector: () => null,
    querySelectorAll: () => [],
    addEventListener: () => {},
    removeEventListener: () => {},
    documentElement: { style: {} },
    head: { appendChild: () => {} },
    body: { appendChild: () => {} }
};

// Navigator mock
globalThis.navigator = {
    userAgent: 'Rusty-SSR/1.0',
    language: 'en-US',
    languages: ['en-US', 'en'],
    platform: 'Linux',
    onLine: true
};

// Location mock
globalThis.location = {
    href: 'http://localhost/',
    origin: 'http://localhost',
    protocol: 'http:',
    host: 'localhost',
    hostname: 'localhost',
    port: '',
    pathname: '/',
    search: '',
    hash: ''
};

// Animation frame mocks
globalThis.requestAnimationFrame = (cb) => setTimeout(cb, 16);
globalThis.cancelAnimationFrame = (id) => clearTimeout(id);

// Performance mock
globalThis.performance = {
    now: () => Date.now(),
    mark: () => {},
    measure: () => {},
    getEntriesByName: () => [],
    getEntriesByType: () => []
};

// Storage mock
const createStorage = () => {
    const data = {};
    return {
        getItem: (key) => data[key] ?? null,
        setItem: (key, value) => { data[key] = String(value); },
        removeItem: (key) => { delete data[key]; },
        clear: () => { for (const k in data) delete data[k]; },
        get length() { return Object.keys(data).length; },
        key: (i) => Object.keys(data)[i] ?? null
    };
};
globalThis.localStorage = createStorage();
globalThis.sessionStorage = createStorage();

// Fetch mock (minimal - throws if actually used)
globalThis.fetch = async () => {
    throw new Error('fetch() is not available in SSR. Use data prop instead.');
};

// MutationObserver mock
globalThis.MutationObserver = class MutationObserver {
    constructor() {}
    observe() {}
    disconnect() {}
    takeRecords() { return []; }
};

// ResizeObserver mock
globalThis.ResizeObserver = class ResizeObserver {
    constructor() {}
    observe() {}
    unobserve() {}
    disconnect() {}
};

// IntersectionObserver mock
globalThis.IntersectionObserver = class IntersectionObserver {
    constructor() {}
    observe() {}
    unobserve() {}
    disconnect() {}
};

// matchMedia mock
globalThis.matchMedia = (query) => ({
    matches: false,
    media: query,
    onchange: null,
    addListener: () => {},
    removeListener: () => {},
    addEventListener: () => {},
    removeEventListener: () => {},
    dispatchEvent: () => false
});

// Image mock
globalThis.Image = class Image {
    constructor() {
        this.src = '';
        this.onload = null;
        this.onerror = null;
    }
};

// Console (ensure it exists)
globalThis.console = globalThis.console || {
    log: () => {},
    warn: () => {},
    error: () => {},
    info: () => {},
    debug: () => {}
};

"#;

/// The full script an initializer with polyfills stores: the polyfills,
/// a newline, then the user bundle.
pub open spec fn with_polyfills(bundle: Seq<char>) -> Seq<char> {
    BROWSER_POLYFILLS@ + "\n"@ + bundle
}

/// The write-once store for the JS bundle source.
pub struct BundleStore {
    slot: Option<String>,
}

impl BundleStore {
    /// The stored source, if the store has been initialized.
    pub closed spec fn stored(self) -> Option<Seq<char>> {
        match self.slot {
            Some(s) => Some(s@),
            None => None,
        }
    }

    /// An empty, uninitialized store.
    pub fn new() -> (r: Self)
        ensures
            r.stored() is None,
    {
        BundleStore { slot: None }
    }
}

/// Initialize the store from a bundle string, prepending the browser
/// polyfills. Succeeds exactly once: a store already initialized is left
/// unchanged and the call reports a `BundleLoad` error.
pub fn init_bundle_from_string(store: &mut BundleStore, bundle: String) -> (r: SsrResult<()>)
    ensures
        old(store).stored() is None ==> r is Ok && final(store).stored() == Some(
            with_polyfills(bundle@),
        ),
        old(store).stored() is Some ==> (r matches Err(e) && e is BundleLoad) && *final(store)
            == *old(store),
{
    if store.slot.is_some() {
        return Err(SsrError::BundleLoad("Bundle already initialized".to_owned()));
    }
    let mut full = BROWSER_POLYFILLS.to_owned();
    full.append("\n");
    full.append(bundle.as_str());
    store.slot = Some(full);
    Ok(())
}

/// Initialize the store from a bundle string as given, without polyfills.
/// Succeeds exactly once, like `init_bundle_from_string`.
pub fn init_bundle_raw(store: &mut BundleStore, bundle: String) -> (r: SsrResult<()>)
    ensures
        old(store).stored() is None ==> r is Ok && final(store).stored() == Some(bundle@),
        old(store).stored() is Some ==> (r matches Err(e) && e is BundleLoad) && *final(store)
            == *old(store),
{
    if store.slot.is_some() {
        return Err(SsrError::BundleLoad("Bundle already initialized".to_owned()));
    }
    store.slot = Some(bundle);
    Ok(())
}

/// Read the stored bundle. The store must have been initialized: every
/// worker runs after bundle initialization, so a verified caller shows this
/// from the order of operations.
pub fn get_bundle(store: &BundleStore) -> (r: &str)
    requires
        store.stored() is Some,
    ensures
        Some(r@) == store.stored(),
{
    match &store.slot {
        Some(s) => s.as_str(),
        None => {
            proof {
                assert(false);
            }
            ""
        },
    }
}

/// Whether the store has been initialized.
pub fn is_initialized(store: &BundleStore) -> (r: bool)
    ensures
        r == (store.stored() is Some),
{
    store.slot.is_some()
}

} // verus!
