use vstd::prelude::*;

verus! {

/// Settings read once at startup: the shell's version and name, and the
/// prompt template (`style`), in which `{curr_dir}` stands for the current
/// directory.
pub struct Config {
    pub version: String,
    pub name: String,
    pub style: String,
}

/// The two-line text that presents a configuration.
pub open spec fn summary_of(name: Seq<char>, version: Seq<char>) -> Seq<char> {
    "name: "@ + name + "\nVersion: "@ + version
}

impl Config {
    pub fn new(version: String, name: String, style: String) -> (r: Config)
        ensures
            r.version == version,
            r.name == name,
            r.style == style,
    {
        Config { version, name, style }
    }

    /// Name and version, as `name: <name>` and `Version: <version>` on two lines.
    pub fn summary(&self) -> (r: String)
        ensures
            r@ == summary_of(self.name@, self.version@),
    {
        let mut s = String::from_str("name: ");
        s.append(self.name.as_str());
        s.append("\nVersion: ");
        s.append(self.version.as_str());
        s
    }
}

} // verus!
