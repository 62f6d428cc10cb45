//! The plugin's registration and widget lifecycle.
//!
//! The host owns every long-lived object: the one sidebar type the plugin
//! registers at load time, and each widget the host later asks that type to
//! create. [`PluginModel`] tracks the plugin's view of that lifecycle — how
//! many types it has registered (never more than one) and which widget
//! handles are live — and its methods are the decisions the plugin makes at
//! each host callback.

use vstd::prelude::*;

verus! {

/// Per-widget plugin state. The host's base widget object carries all real
/// state, so the plugin's side is an empty marker.
pub struct MySidebarRust;

/// Per-sidebar-type plugin state. As with the widget, the host's base object
/// carries all real state.
pub struct MySidebarTypeRust;

impl MySidebarRust {
    /// Plugin-side state for one newly constructed widget.
    pub fn new() -> MySidebarRust {
        MySidebarRust {  }
    }
}

impl MySidebarTypeRust {
    /// Plugin-side state for the one sidebar type the plugin registers.
    pub fn new() -> MySidebarTypeRust {
        MySidebarTypeRust {  }
    }
}

/// Arguments the widget subclass hands to the host's base-class constructor.
pub struct SidebarArguments {
    /// The widget's title.
    pub title: String,
}

/// Arguments the sidebar-type subclass hands to the host's base-class
/// constructor.
pub struct SidebarTypeArguments {
    /// The raw bytes of the icon image bundled with the plugin.
    pub icon_data: Vec<u8>,
    /// The sidebar type's display name.
    pub name: String,
}

/// The base-class constructor arguments for a new widget: the fixed title.
pub fn my_sidebar_arguments() -> (r: SidebarArguments)
    ensures
        r.title@ == "test"@,
{
    SidebarArguments { title: "test".to_owned() }
}

/// The base-class constructor arguments for the sidebar type: the bundled
/// icon's bytes, unchanged, and the fixed display name.
pub fn my_sidebar_type_arguments(icon_data: Vec<u8>) -> (r: SidebarTypeArguments)
    ensures
        r.icon_data@ == icon_data@,
        r.name@ == "test_str"@,
{
    SidebarTypeArguments { icon_data, name: "test_str".to_owned() }
}

/// The plugin's view of the host-owned object graph: how many sidebar types
/// it has registered and which widget handles are live.
pub struct PluginModel {
    /// How many sidebar types the plugin has registered with the host.
    pub registered_types: u64,
    /// The next widget handle to hand out. Starts above zero so no handle is
    /// ever null.
    pub next_widget: u64,
    /// The handles of the widgets created so far and not yet closed.
    pub live_widgets: Vec<u64>,
}

impl PluginModel {
    /// The model's invariant: the plugin registers at most one sidebar type,
    /// no live handle is null, and every live handle is below the next one
    /// to be handed out (so new handles are always fresh).
    pub open spec fn wf(self) -> bool {
        &&& self.registered_types <= 1
        &&& self.next_widget >= 1
        &&& forall|i: int|
            0 <= i < self.live_widgets@.len() ==> 0 < #[trigger] self.live_widgets@[i]
                < self.next_widget
    }

    /// The state of a freshly loaded plugin: nothing registered, no widgets.
    pub fn new() -> (m: PluginModel)
        ensures
            m.wf(),
            m.registered_types == 0,
            m.next_widget == 1,
            m.live_widgets@ =~= Seq::<u64>::empty(),
    {
        PluginModel { registered_types: 0, next_widget: 1, live_widgets: Vec::new() }
    }

    /// The plugin's load-time entry point, as far as the plugin decides it:
    /// called once, after logging came up, it registers exactly one sidebar
    /// type and reports success. A failed logging initialization aborts the
    /// load instead of reaching this transition, and the host never calls
    /// the entry point twice.
    pub fn initialize_plugin(&mut self, logging_initialized: bool) -> (r: bool)
        requires
            old(self).wf(),
            old(self).registered_types == 0,
            logging_initialized,
        ensures
            final(self).wf(),
            final(self).registered_types == 1,
            final(self).next_widget == old(self).next_widget,
            final(self).live_widgets == old(self).live_widgets,
            r,
    {
        self.registered_types = 1;
        true
    }

    /// The "create widget" override: for any view-frame and binary-view
    /// handles the host passes, hand back a newly constructed widget handle —
    /// never null, never one handed out before — and remember it as live.
    pub fn create_widget(&mut self, _view_frame: u64, _binary_view: u64) -> (w: u64)
        requires
            old(self).wf(),
            old(self).next_widget < u64::MAX,
        ensures
            final(self).wf(),
            w != 0,
            forall|i: int|
                0 <= i < old(self).live_widgets@.len() ==> #[trigger] old(self).live_widgets@[i]
                    != w,
            final(self).live_widgets@ =~= old(self).live_widgets@.push(w),
            final(self).registered_types == old(self).registered_types,
            final(self).next_widget == old(self).next_widget + 1,
    {
        let w = self.next_widget;
        self.next_widget = self.next_widget + 1;
        self.live_widgets.push(w);
        w
    }

    /// The "closing" override: the host is tearing one widget down, and this
    /// notification is the only signal the plugin gets. Forget the first
    /// live handle equal to `widget`; a handle the model does not know
    /// leaves it unchanged.
    pub fn widget_closing(&mut self, widget: u64)
        requires
            old(self).wf(),
        ensures
            final(self).wf(),
            final(self).registered_types == old(self).registered_types,
            final(self).next_widget == old(self).next_widget,
            !old(self).live_widgets@.contains(widget) ==> final(self).live_widgets@ == old(
                self,
            ).live_widgets@,
            old(self).live_widgets@.contains(widget) ==> exists|k: int|
                0 <= k < old(self).live_widgets@.len() && old(self).live_widgets@[k] == widget && (
                forall|j: int| 0 <= j < k ==> old(self).live_widgets@[j] != widget)
                    && final(self).live_widgets@ == old(self).live_widgets@.remove(k),
    {
        let n = self.live_widgets.len();
        let mut i: usize = 0;
        while i < n
            invariant
                i <= n,
                n == self.live_widgets@.len(),
                old(self).wf(),
                *self == *old(self),
                forall|j: int| 0 <= j < i ==> self.live_widgets@[j] != widget,
            decreases n - i,
        {
            if self.live_widgets[i] == widget {
                self.live_widgets.remove(i);
                proof {
                    old(self).live_widgets@.remove_ensures(i as int);
                    assert(self.live_widgets@ == old(self).live_widgets@.remove(i as int));
                    assert forall|m: int|
                        0 <= m < self.live_widgets@.len() implies 0 < #[trigger] self
                        .live_widgets@[m] < self.next_widget by {
                        assert(self.live_widgets@[m] == old(self).live_widgets@.remove(i as int)[m]);
                    }
                }
                return ;
            }
            i += 1;
        }
        proof {
            assert(!old(self).live_widgets@.contains(widget));
        }
    }
}

} // verus!
