use vstd::prelude::*;

verus! {

/// The settings of a window to be created.
pub struct ContextConfig {
    pub title: String,
    pub width: u32,
    pub height: u32,
}

/// Collects the settings of a window: title and inner size.
pub struct ContextBuilder {
    config: ContextConfig,
}

impl ContextBuilder {
    /// The settings collected so far.
    pub closed spec fn spec_config(&self) -> &ContextConfig {
        &self.config
    }

    /// A window titled "Window", 800 by 600.
    pub fn new() -> (builder: Self)
        ensures
            builder.spec_config().title@ == "Window"@,
            builder.spec_config().width == 800,
            builder.spec_config().height == 600,
    {
        ContextBuilder {
            config: ContextConfig { title: "Window".to_owned(), width: 800, height: 600 },
        }
    }

    /// Sets the title; the size stays.
    pub fn title(self, title: &str) -> (builder: Self)
        ensures
            builder.spec_config().title@ == title@,
            builder.spec_config().width == self.spec_config().width,
            builder.spec_config().height == self.spec_config().height,
    {
        let mut builder = self;
        builder.config.title = title.to_owned();
        builder
    }

    /// Sets the inner size; the title stays.
    pub fn size(self, width: u32, height: u32) -> (builder: Self)
        ensures
            builder.spec_config().title@ == self.spec_config().title@,
            builder.spec_config().width == width,
            builder.spec_config().height == height,
    {
        let mut builder = self;
        builder.config.width = width;
        builder.config.height = height;
        builder
    }

    /// The settings collected so far.
    pub fn config(&self) -> (config: &ContextConfig)
        ensures
            config == self.spec_config(),
    {
        &self.config
    }
}

} // verus!
