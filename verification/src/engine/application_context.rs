use std::collections::HashMap;
use vstd::prelude::*;
use crate::engine::input::ElementState;

verus! {

/// The settings of a window to be created.
pub struct ContextConfig {
    pub title: String,
    pub width: u32,
    pub height: u32,
    pub icon_path: Option<String>,
}

/// Collects the settings of a window: title, inner size and, optionally, the
/// path of an icon image.
pub struct ContextBuilder {
    config: ContextConfig,
}

impl ContextBuilder {
    /// The settings collected so far.
    pub closed spec fn spec_config(&self) -> &ContextConfig {
        &self.config
    }

    /// A window titled "Window", 800 by 600, without an icon.
    pub fn new() -> (builder: Self)
        ensures
            builder.spec_config().title@ == "Window"@,
            builder.spec_config().width == 800,
            builder.spec_config().height == 600,
            builder.spec_config().icon_path is None,
    {
        ContextBuilder {
            config: ContextConfig {
                title: "Window".to_owned(),
                width: 800,
                height: 600,
                icon_path: None,
            },
        }
    }

    /// Sets the title; the other settings stay.
    pub fn title(self, title: &str) -> (builder: Self)
        ensures
            builder.spec_config().title@ == title@,
            builder.spec_config().width == self.spec_config().width,
            builder.spec_config().height == self.spec_config().height,
            builder.spec_config().icon_path == self.spec_config().icon_path,
    {
        let mut builder = self;
        builder.config.title = title.to_owned();
        builder
    }

    /// Sets the inner size; the other settings stay.
    pub fn size(self, width: u32, height: u32) -> (builder: Self)
        ensures
            builder.spec_config().title@ == self.spec_config().title@,
            builder.spec_config().width == width,
            builder.spec_config().height == height,
            builder.spec_config().icon_path == self.spec_config().icon_path,
    {
        let mut builder = self;
        builder.config.width = width;
        builder.config.height = height;
        builder
    }

    /// Sets the path of the icon image; the other settings stay.
    pub fn icon(self, icon_path: &str) -> (builder: Self)
        ensures
            builder.spec_config().title@ == self.spec_config().title@,
            builder.spec_config().width == self.spec_config().width,
            builder.spec_config().height == self.spec_config().height,
            builder.spec_config().icon_path matches Some(path) && path@ == icon_path@,
    {
        let mut builder = self;
        builder.config.icon_path = Some(icon_path.to_owned());
        builder
    }

    /// The settings collected so far.
    pub fn config(&self) -> (config: &ContextConfig)
        ensures
            config == self.spec_config(),
    {
        &self.config
    }
}

/// An event of a window, as far as dispatching it to the window's context goes.
#[derive(Debug, Clone, Copy, PartialEq, Eq, Structural)]
pub enum WindowEvent {
    /// The inner size changed.
    Resized { width: u32, height: u32 },
    /// The window should draw a frame.
    RedrawRequested,
    /// The user asked to close the window.
    CloseRequested,
    /// A key went down or up; `key_code` is the key's number, if the key is known.
    KeyboardInput { key_code: Option<u32>, state: ElementState },
    /// Anything else.
    Other,
}

/// What a window's context is to do with an event.
#[derive(Debug, Clone, Copy, PartialEq, Eq, Structural)]
pub enum WindowAction {
    /// Adapt to the new inner size.
    Resize { width: u32, height: u32 },
    /// Draw a frame; close the window afterwards if the application asked for it.
    Render,
    /// Shut the application down and close the window.
    Close,
    /// Record the key event in the window's input state.
    Key { key_code: u32, state: ElementState },
    /// Nothing.
    Ignore,
}

/// The action for an event of a window; only registered windows act.
pub open spec fn spec_window_action(registered: bool, event: WindowEvent) -> WindowAction {
    if !registered {
        WindowAction::Ignore
    } else {
        match event {
            WindowEvent::Resized { width, height } => WindowAction::Resize { width, height },
            WindowEvent::RedrawRequested => WindowAction::Render,
            WindowEvent::CloseRequested => WindowAction::Close,
            WindowEvent::KeyboardInput { key_code, state } => match key_code {
                Some(code) => WindowAction::Key { key_code: code, state },
                None => WindowAction::Ignore,
            },
            WindowEvent::Other => WindowAction::Ignore,
        }
    }
}

/// Every event of an open window reaches its context with what it carries: a new
/// size with its width and height as they are, a key event of a known key with
/// that key and its own state, pressed or released; a key event of an unknown key
/// and any other event are ignored.
pub proof fn lemma_open_window_actions(width: u32, height: u32, key_code: u32, state: ElementState)
    ensures
        spec_window_action(true, WindowEvent::Resized { width, height }) == (WindowAction::Resize {
            width,
            height,
        }),
        spec_window_action(true, WindowEvent::RedrawRequested) == WindowAction::Render,
        spec_window_action(true, WindowEvent::CloseRequested) == WindowAction::Close,
        spec_window_action(true, WindowEvent::KeyboardInput { key_code: Some(key_code), state })
            == (WindowAction::Key { key_code, state }),
        spec_window_action(true, WindowEvent::KeyboardInput { key_code: None, state })
            == WindowAction::Ignore,
        spec_window_action(true, WindowEvent::Other) == WindowAction::Ignore,
{
}

/// Key releases are passed on like key presses: for an open window, the action
/// of a release differs from that of a press of the same key only in its state.
pub proof fn lemma_release_reaches_context(key_code: u32)
    ensures
        spec_window_action(
            true,
            WindowEvent::KeyboardInput { key_code: Some(key_code), state: ElementState::Released },
        ) == (WindowAction::Key { key_code, state: ElementState::Released }),
        spec_window_action(
            true,
            WindowEvent::KeyboardInput { key_code: Some(key_code), state: ElementState::Pressed },
        ) == (WindowAction::Key { key_code, state: ElementState::Pressed }),
{
}

/// Once a window is closed, every later event of it is ignored.
pub proof fn lemma_closed_window_ignored<C>(open: Map<u64, C>, window_id: u64, event: WindowEvent)
    ensures
        spec_window_action(open.remove(window_id).contains_key(window_id), event)
            == WindowAction::Ignore,
{
}

/// Whether a window of this inner size has anything to draw to; a window with no
/// width or no height is not resized or drawn.
pub fn is_drawable_extent(width: u32, height: u32) -> (drawable: bool)
    ensures
        drawable == (width >= 1 && height >= 1),
{
    width >= 1 && height >= 1
}

/// The windows of an application: contexts waiting for the event loop to start,
/// and the contexts of open windows by window id.
pub struct ContextManager<C> {
    contexts: HashMap<u64, C>,
    pending: Vec<C>,
}

impl<C> ContextManager<C> {
    /// The contexts of open windows, by window id.
    pub closed spec fn open_windows(&self) -> Map<u64, C> {
        self.contexts@
    }

    /// The contexts registered and not yet opened, in order of registration.
    pub closed spec fn pending_contexts(&self) -> Seq<C> {
        self.pending@
    }

    /// No window, nothing pending.
    pub fn new() -> (manager: Self)
        ensures
            manager.open_windows() == Map::<u64, C>::empty(),
            manager.pending_contexts() == Seq::<C>::empty(),
    {
        ContextManager { contexts: HashMap::new(), pending: Vec::new() }
    }

    /// Queues a context; its window opens when the event loop starts.
    pub fn register(&mut self, context: C)
        ensures
            final(self).pending_contexts() == old(self).pending_contexts().push(context),
            final(self).open_windows() == old(self).open_windows(),
    {
        self.pending.push(context);
    }

    /// Hands out the queued contexts, in order of registration, and empties the queue.
    pub fn take_pending(&mut self) -> (contexts: Vec<C>)
        ensures
            contexts@ == old(self).pending_contexts(),
            final(self).pending_contexts() == Seq::<C>::empty(),
            final(self).open_windows() == old(self).open_windows(),
    {
        let mut taken: Vec<C> = Vec::new();
        std::mem::swap(&mut taken, &mut self.pending);
        taken
    }

    /// Records the context of an opened window; returns the context that window id had before.
    pub fn insert(&mut self, window_id: u64, context: C) -> (previous: Option<C>)
        ensures
            final(self).open_windows() == old(self).open_windows().insert(window_id, context),
            final(self).pending_contexts() == old(self).pending_contexts(),
            previous == (if old(self).open_windows().contains_key(window_id) {
                Some(old(self).open_windows()[window_id])
            } else {
                None
            }),
    {
        self.contexts.insert(window_id, context)
    }

    /// Whether the window is open.
    pub fn contains(&self, window_id: u64) -> (open: bool)
        ensures
            open == self.open_windows().contains_key(window_id),
    {
        self.contexts.contains_key(&window_id)
    }

    /// The number of open windows.
    pub fn len(&self) -> (count: usize)
        ensures
            count == self.open_windows().len(),
    {
        self.contexts.len()
    }

    /// The context of an open window, to work on.
    pub fn context_mut(&mut self, window_id: u64) -> (context: &mut C)
        requires
            old(self).open_windows().contains_key(window_id),
        ensures
            *context == old(self).open_windows()[window_id],
            final(self).open_windows() == old(self).open_windows().insert(window_id, *final(context)),
            final(self).pending_contexts() == old(self).pending_contexts(),
    {
        map_get_mut(&mut self.contexts, window_id)
    }

    /// Closes a window: forgets its context and hands it back. `exit` tells whether
    /// that was the last open window, in which case the event loop is to end.
    pub fn close(&mut self, window_id: u64) -> (result: (Option<C>, bool))
        ensures
            final(self).open_windows() == old(self).open_windows().remove(window_id),
            final(self).pending_contexts() == old(self).pending_contexts(),
            result.0 == (if old(self).open_windows().contains_key(window_id) {
                Some(old(self).open_windows()[window_id])
            } else {
                None
            }),
            result.1 == final(self).open_windows().is_empty(),
    {
        let removed = self.contexts.remove(&window_id);
        let exit = self.contexts.is_empty();
        (removed, exit)
    }

    /// After a frame of window `window_id`: closes the window if its application
    /// asked for it (`should_close`), exactly as [`ContextManager::close`] does, and
    /// otherwise changes nothing and hands back `(None, false)`.
    pub fn close_after_frame(&mut self, window_id: u64, should_close: bool) -> (result: (
        Option<C>,
        bool,
    ))
        ensures
            final(self).pending_contexts() == old(self).pending_contexts(),
            should_close ==> {
                &&& final(self).open_windows() == old(self).open_windows().remove(window_id)
                &&& result.0 == (if old(self).open_windows().contains_key(window_id) {
                    Some(old(self).open_windows()[window_id])
                } else {
                    None
                })
                &&& result.1 == final(self).open_windows().is_empty()
            },
            !should_close ==> {
                &&& final(self).open_windows() == old(self).open_windows()
                &&& result == (None::<C>, false)
            },
    {
        if should_close {
            self.close(window_id)
        } else {
            (None, false)
        }
    }

    /// The ids of the open windows, each once.
    pub fn window_ids(&self) -> (ids: Vec<u64>)
        ensures
            ids@.to_set() == self.open_windows().dom(),
            ids@.no_duplicates(),
    {
        let mut ids: Vec<u64> = Vec::new();
        for k in it: self.contexts.keys()
            invariant
                ids@.len() == it.index(),
                forall|j: int| 0 <= j < it.index() ==> ids@[j] == *it.seq()[j],
                it.seq() == vstd::std_specs::iter::IteratorSpec::remaining(&vstd::std_specs::hash::spec_keys_iter(&self.contexts)),
        {
            ids.push(*k);
        }
        proof {
            let keys = vstd::std_specs::iter::IteratorSpec::remaining(&vstd::std_specs::hash::spec_keys_iter(&self.contexts));
            assert(ids@ =~= keys.unref());
        }
        ids
    }

    /// What the context of window `window_id` is to do with `event`.
    pub fn window_action(&self, window_id: u64, event: WindowEvent) -> (action: WindowAction)
        ensures
            action == spec_window_action(self.open_windows().contains_key(window_id), event),
    {
        if !self.contexts.contains_key(&window_id) {
            return WindowAction::Ignore;
        }
        match event {
            WindowEvent::Resized { width, height } => WindowAction::Resize { width, height },
            WindowEvent::RedrawRequested => WindowAction::Render,
            WindowEvent::CloseRequested => WindowAction::Close,
            WindowEvent::KeyboardInput { key_code, state } => match key_code {
                Some(code) => WindowAction::Key { key_code: code, state },
                None => WindowAction::Ignore,
            },
            WindowEvent::Other => WindowAction::Ignore,
        }
    }
}

/// `HashMap::get_mut`, for a key that is present.
///
/// Trusted: std documents that `get_mut` returns a mutable reference to the value
/// of the key; the contract says that the reference starts out at that value and
/// that whatever is written through it becomes the key's value, the other entries
/// staying as they were.
#[verifier::external_body]
fn map_get_mut<'a, V>(map: &'a mut HashMap<u64, V>, key: u64) -> (value: &'a mut V)
    requires
        old(map)@.contains_key(key),
    ensures
        *value == old(map)@[key],
        final(map)@ == old(map)@.insert(key, *final(value)),
{
    map.get_mut(&key).unwrap()
}

} // verus!
