//! Building a record step by step, one builder for each way of identifying a bundle.

use crate::bundle::{text_of, Bundle, BundleConfig, BundleView};
use crate::kind::BundleType;
use crate::text::views;
use vstd::prelude::*;

verus! {

/// The record that has a name and a kind and every other field in its empty state.
pub open spec fn blank(name: Seq<char>, bundle_type: BundleType) -> BundleView {
    BundleView {
        name,
        bundle_type,
        store_id: None,
        homebrew_id: None,
        executable: None,
        encrypted_image: None,
        version: None,
        background: false,
        prefer_xbox_mode: false,
        launcher: None,
        launcher_tags: Seq::empty(),
        launcher_exec: None,
    }
}

/// Whether a record is one of a bundle that is identified locally: it has no
/// catalog identifier, does not run in the background, provides no launcher
/// and has no encrypted image.
pub open spec fn locally_identified(bundle: BundleView) -> bool {
    &&& bundle.homebrew_id is Some
    &&& bundle.store_id is None
    &&& !bundle.background
    &&& bundle.launcher_exec is None
    &&& bundle.launcher_tags.len() == 0
    &&& bundle.encrypted_image is None
}

/// Whether a record is one of a bundle that a catalog identifies: it has a
/// catalog identifier and no local one.
pub open spec fn catalog_identified(bundle: BundleView) -> bool {
    &&& bundle.store_id is Some
    &&& bundle.homebrew_id is None
}

/// The first step of building a record: its name and its kind.
pub struct BundleConfigBuilder {
    name: String,
    bundle_type: BundleType,
}

impl View for BundleConfigBuilder {
    type V = (Seq<char>, BundleType);

    closed spec fn view(&self) -> (Seq<char>, BundleType) {
        (self.name@, self.bundle_type)
    }
}

impl BundleConfigBuilder {
    /// Begins a record with its name and its kind.
    pub fn new(name: String, bundle_type: BundleType) -> (builder: Self)
        ensures
            builder@ == (name@, bundle_type),
    {
        Self { name, bundle_type }
    }

    /// Goes on with a bundle that is identified locally.
    pub fn homebrew_id(self, id: String) -> (builder: HomebrewBundleConfigBuilder)
        ensures
            builder@ == (BundleView { homebrew_id: Some(id@), ..blank(self@.0, self@.1) }),
    {
        HomebrewBundleConfigBuilder {
            name: self.name,
            bundle_type: self.bundle_type,
            executable: None,
            homebrew_id: id,
            launcher: None,
            prefer_xbox_mode: false,
            version: None,
        }
    }

    /// Goes on with a bundle that a catalog identifies.
    pub fn store_id(self, id: String) -> (builder: StoreBundleConfigBuilder)
        ensures
            builder@ == (BundleView { store_id: Some(id@), ..blank(self@.0, self@.1) }),
    {
        let builder = StoreBundleConfigBuilder {
            name: self.name,
            bundle_type: self.bundle_type,
            executable: None,
            store_id: id,
            launcher: None,
            launcher_exec: None,
            launcher_tags: Vec::new(),
            background: false,
            prefer_xbox_mode: false,
            version: None,
            encrypted_image: None,
        };
        proof {
            assert(builder@.launcher_tags =~= Seq::empty());
        }
        builder
    }
}

/// Builds the record of a bundle that is identified locally. Such a bundle
/// never runs in the background, provides no launcher and has no encrypted
/// image, so the builder has no way to set these.
pub struct HomebrewBundleConfigBuilder {
    name: String,
    bundle_type: BundleType,
    homebrew_id: String,
    executable: Option<String>,
    version: Option<String>,
    prefer_xbox_mode: bool,
    launcher: Option<String>,
}

impl View for HomebrewBundleConfigBuilder {
    type V = BundleView;

    /// The record that the builder would build now.
    closed spec fn view(&self) -> BundleView {
        BundleView {
            homebrew_id: Some(self.homebrew_id@),
            executable: text_of(self.executable),
            version: text_of(self.version),
            prefer_xbox_mode: self.prefer_xbox_mode,
            launcher: text_of(self.launcher),
            ..blank(self.name@, self.bundle_type)
        }
    }
}

impl HomebrewBundleConfigBuilder {
    /// Whatever was set, the record in the making is one of a bundle that is
    /// identified locally.
    pub proof fn lemma_locally_identified(self)
        ensures
            locally_identified(self@),
    {
    }

    /// Sets the version.
    pub fn version(self, version: String) -> (builder: Self)
        ensures
            builder@ == (BundleView { version: Some(version@), ..self@ }),
    {
        let mut next = self;
        next.version = Some(version);
        next
    }

    /// Sets whether the bundle prefers the Xbox mode.
    pub fn prefer_xbox_mode(self, prefer_xbox_mode: bool) -> (builder: Self)
        ensures
            builder@ == (BundleView { prefer_xbox_mode, ..self@ }),
    {
        let mut next = self;
        next.prefer_xbox_mode = prefer_xbox_mode;
        next
    }

    /// Names the launcher that the bundle needs.
    pub fn requires_launcher(self, launcher: String) -> (builder: Self)
        ensures
            builder@ == (BundleView { launcher: Some(launcher@), ..self@ }),
    {
        let mut next = self;
        next.launcher = Some(launcher);
        next
    }

    /// Sets the primary executable.
    pub fn exec(self, executable: String) -> (builder: Self)
        ensures
            builder@ == (BundleView { executable: Some(executable@), ..self@ }),
    {
        let mut next = self;
        next.executable = Some(executable);
        next
    }

    /// Sets the version, or takes it away.
    pub fn set_version(&mut self, version: Option<String>) -> (builder: &mut Self)
        ensures
            builder@ == (BundleView { version: text_of(version), ..old(self)@ }),
            *final(self) == *final(builder),
    {
        self.version = version;
        self
    }

    /// Sets the flag; `None` puts it down.
    pub fn set_prefer_xbox_mode(&mut self, prefer_xbox_mode: Option<bool>) -> (builder: &mut Self)
        ensures
            builder@ == (BundleView {
                prefer_xbox_mode: prefer_xbox_mode == Some(true),
                ..old(self)@
            }),
            *final(self) == *final(builder),
    {
        self.prefer_xbox_mode = match prefer_xbox_mode {
            Some(flag) => flag,
            None => false,
        };
        self
    }

    /// Names the launcher that the bundle needs, or says that it needs none.
    pub fn set_requires_launcher(&mut self, launcher: Option<String>) -> (builder: &mut Self)
        ensures
            builder@ == (BundleView { launcher: text_of(launcher), ..old(self)@ }),
            *final(self) == *final(builder),
    {
        self.launcher = launcher;
        self
    }

    /// Sets the primary executable, or takes it away.
    pub fn set_exec(&mut self, executable: Option<String>) -> (builder: &mut Self)
        ensures
            builder@ == (BundleView { executable: text_of(executable), ..old(self)@ }),
            *final(self) == *final(builder),
    {
        self.executable = executable;
        self
    }

    /// The record as it was set, in its container. The fields that this
    /// builder cannot set are in their empty state.
    pub fn build(self) -> (config: BundleConfig)
        ensures
            config@.bundle == self@,
            locally_identified(config@.bundle),
    {
        let config = BundleConfig {
            bundle: Bundle {
                name: self.name,
                bundle_type: self.bundle_type,
                store_id: None,
                homebrew_id: Some(self.homebrew_id),
                executable: self.executable,
                version: self.version,
                background: false,
                prefer_xbox_mode: self.prefer_xbox_mode,
                launcher: self.launcher,
                launcher_tags: Vec::new(),
                launcher_exec: None,
                encrypted_image: None,
            },
        };
        proof {
            assert(config@.bundle.launcher_tags =~= Seq::empty());
        }
        config
    }
}

/// Builds the record of a bundle that a catalog identifies.
pub struct StoreBundleConfigBuilder {
    name: String,
    bundle_type: BundleType,
    store_id: String,
    executable: Option<String>,
    version: Option<String>,
    background: bool,
    prefer_xbox_mode: bool,
    launcher: Option<String>,
    launcher_tags: Vec<String>,
    launcher_exec: Option<String>,
    encrypted_image: Option<String>,
}

impl View for StoreBundleConfigBuilder {
    type V = BundleView;

    /// The record that the builder would build now.
    closed spec fn view(&self) -> BundleView {
        BundleView {
            name: self.name@,
            bundle_type: self.bundle_type,
            store_id: Some(self.store_id@),
            homebrew_id: None,
            executable: text_of(self.executable),
            encrypted_image: text_of(self.encrypted_image),
            version: text_of(self.version),
            background: self.background,
            prefer_xbox_mode: self.prefer_xbox_mode,
            launcher: text_of(self.launcher),
            launcher_tags: views(self.launcher_tags@),
            launcher_exec: text_of(self.launcher_exec),
        }
    }
}

impl StoreBundleConfigBuilder {
    /// Whatever was set, the record in the making is one of a bundle that a
    /// catalog identifies.
    pub proof fn lemma_catalog_identified(self)
        ensures
            catalog_identified(self@),
    {
    }

    /// Sets the version.
    pub fn version(self, version: String) -> (builder: Self)
        ensures
            builder@ == (BundleView { version: Some(version@), ..self@ }),
    {
        let mut next = self;
        next.version = Some(version);
        next
    }

    /// Sets whether the bundle runs in the background.
    pub fn background(self, background: bool) -> (builder: Self)
        ensures
            builder@ == (BundleView { background, ..self@ }),
    {
        let mut next = self;
        next.background = background;
        next
    }

    /// Sets whether the bundle prefers the Xbox mode.
    pub fn prefer_xbox_mode(self, prefer_xbox_mode: bool) -> (builder: Self)
        ensures
            builder@ == (BundleView { prefer_xbox_mode, ..self@ }),
    {
        let mut next = self;
        next.prefer_xbox_mode = prefer_xbox_mode;
        next
    }

    /// Names the launcher that the bundle needs.
    pub fn requires_launcher(self, launcher: String) -> (builder: Self)
        ensures
            builder@ == (BundleView { launcher: Some(launcher@), ..self@ }),
    {
        let mut next = self;
        next.launcher = Some(launcher);
        next
    }

    /// Makes the bundle provide a launcher: its executable and its tags, both at once.
    pub fn provides_launcher(self, executable: String, tags: Vec<String>) -> (builder: Self)
        ensures
            builder@ == (BundleView {
                launcher_exec: Some(executable@),
                launcher_tags: views(tags@),
                ..self@
            }),
    {
        let mut next = self;
        next.launcher_exec = Some(executable);
        next.launcher_tags = tags;
        next
    }

    /// Sets the primary executable.
    pub fn exec(self, executable: String) -> (builder: Self)
        ensures
            builder@ == (BundleView { executable: Some(executable@), ..self@ }),
    {
        let mut next = self;
        next.executable = Some(executable);
        next
    }

    /// Set the store bundle config builder's encrypted image.
    pub fn encrypted_image(&mut self, encrypted_image: String) -> (builder: &mut Self)
        ensures
            builder@ == (BundleView { encrypted_image: Some(encrypted_image@), ..old(self)@ }),
            *final(self) == *final(builder),
    {
        self.encrypted_image = Some(encrypted_image);
        self
    }

    /// Sets the version, or takes it away.
    pub fn set_version(&mut self, version: Option<String>) -> (builder: &mut Self)
        ensures
            builder@ == (BundleView { version: text_of(version), ..old(self)@ }),
            *final(self) == *final(builder),
    {
        self.version = version;
        self
    }

    /// Sets the flag; `None` puts it down.
    pub fn set_background(&mut self, background: Option<bool>) -> (builder: &mut Self)
        ensures
            builder@ == (BundleView { background: background == Some(true), ..old(self)@ }),
            *final(self) == *final(builder),
    {
        self.background = match background {
            Some(flag) => flag,
            None => false,
        };
        self
    }

    /// Sets the flag; `None` puts it down.
    pub fn set_prefer_xbox_mode(&mut self, prefer_xbox_mode: Option<bool>) -> (builder: &mut Self)
        ensures
            builder@ == (BundleView {
                prefer_xbox_mode: prefer_xbox_mode == Some(true),
                ..old(self)@
            }),
            *final(self) == *final(builder),
    {
        self.prefer_xbox_mode = match prefer_xbox_mode {
            Some(flag) => flag,
            None => false,
        };
        self
    }

    /// Names the launcher that the bundle needs, or says that it needs none.
    pub fn set_requires_launcher(&mut self, launcher: Option<String>) -> (builder: &mut Self)
        ensures
            builder@ == (BundleView { launcher: text_of(launcher), ..old(self)@ }),
            *final(self) == *final(builder),
    {
        self.launcher = launcher;
        self
    }

    /// Makes the bundle provide a launcher, where an executable is given: the
    /// executable and the tags are then set together. Tags that come without
    /// an executable are dropped, and the builder stays as it was.
    pub fn set_provides_launcher(&mut self, executable: Option<String>, tags: Vec<String>) -> (builder:
        &mut Self)
        ensures
            builder@ == match executable {
                Some(path) => BundleView {
                    launcher_exec: Some(path@),
                    launcher_tags: views(tags@),
                    ..old(self)@
                },
                None => old(self)@,
            },
            *final(self) == *final(builder),
    {
        if let Some(path) = executable {
            self.launcher_exec = Some(path);
            self.launcher_tags = tags;
        }
        self
    }

    /// Sets the primary executable, or takes it away.
    pub fn set_exec(&mut self, executable: Option<String>) -> (builder: &mut Self)
        ensures
            builder@ == (BundleView { executable: text_of(executable), ..old(self)@ }),
            *final(self) == *final(builder),
    {
        self.executable = executable;
        self
    }

    /// The record as it was set, in its container. It has the catalog
    /// identifier that the builder began with, and no local one.
    pub fn build(self) -> (config: BundleConfig)
        ensures
            config@.bundle == self@,
            catalog_identified(config@.bundle),
    {
        BundleConfig {
            bundle: Bundle {
                name: self.name,
                bundle_type: self.bundle_type,
                store_id: Some(self.store_id),
                homebrew_id: None,
                executable: self.executable,
                version: self.version,
                background: self.background,
                prefer_xbox_mode: self.prefer_xbox_mode,
                launcher: self.launcher,
                launcher_tags: self.launcher_tags,
                launcher_exec: self.launcher_exec,
                encrypted_image: self.encrypted_image,
            },
        }
    }
}

impl BundleConfig {
    /// Begins to build a record with the given name and kind.
    pub fn builder(name: String, bundle_type: BundleType) -> (builder: BundleConfigBuilder)
        ensures
            builder@ == (name@, bundle_type),
    {
        BundleConfigBuilder::new(name, bundle_type)
    }
}

} // verus!
