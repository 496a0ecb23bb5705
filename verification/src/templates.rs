//! The built-in workflow templates, the remote locations template material
//! is fetched from, and the step decision of the question loop. Registering
//! a template with the handlebars registry goes through a trusted wrapper;
//! everything else here is plain string work.

use vstd::prelude::*;

use crate::vars::{After, TemplateVars};

verus! {

/// The templates this client ships.
#[derive(Debug, Clone, Copy, PartialEq, Eq, Structural)]
pub enum Templates {
    Dart,
}

impl Templates {
    /// The name a template is registered under.
    pub open spec fn spec_name(self) -> Seq<char> {
        match self {
            Templates::Dart => "dart"@,
        }
    }

    /// The template's text.
    pub open spec fn spec_template(self) -> Seq<char> {
        match self {
            Templates::Dart => "\nARG NAME={{NAME}}\n\n# Specify the Dart SDK base image version using dart:<version> (ex: dart:2.12)\nFROM dart:stable AS build\nARG NAME\n\n# Resolve app dependencies.\nWORKDIR /app\nCOPY pubspec.* ./\nRUN dart pub get\n\n# Copy app source code and AOT compile it.\nCOPY . .\n# Ensure packages are still up-to-date if anything has changed\nRUN dart pub get --offline\nRUN dart compile exe bin/${NAME}.dart -o bin/${NAME}\n\n# Build minimal serving image from AOT-compiled `/test` and required system\n# libraries and configuration files stored in `/runtime/` from the build stage.\nFROM chainguard/static:latest\nARG NAME\n\nCOPY --from=build /runtime/ /\nCOPY --from=build /app/bin/${NAME} /app/bin/app\n\nCMD [\"/app/bin/app\"]\n"@,
        }
    }

    pub fn get_name(&self) -> (r: String)
        ensures
            r@ == self.spec_name(),
    {
        match self {
            Templates::Dart => "dart".to_owned(),
        }
    }

    pub fn get_template(&self) -> (r: String)
        ensures
            r@ == self.spec_template(),
    {
        match self {
            Templates::Dart => "\nARG NAME={{NAME}}\n\n# Specify the Dart SDK base image version using dart:<version> (ex: dart:2.12)\nFROM dart:stable AS build\nARG NAME\n\n# Resolve app dependencies.\nWORKDIR /app\nCOPY pubspec.* ./\nRUN dart pub get\n\n# Copy app source code and AOT compile it.\nCOPY . .\n# Ensure packages are still up-to-date if anything has changed\nRUN dart pub get --offline\nRUN dart compile exe bin/${NAME}.dart -o bin/${NAME}\n\n# Build minimal serving image from AOT-compiled `/test` and required system\n# libraries and configuration files stored in `/runtime/` from the build stage.\nFROM chainguard/static:latest\nARG NAME\n\nCOPY --from=build /runtime/ /\nCOPY --from=build /app/bin/${NAME} /app/bin/app\n\nCMD [\"/app/bin/app\"]\n".to_owned(),
        }
    }
}

// ---------------------------------------------------------------------------
// Where workflow material lives
// ---------------------------------------------------------------------------
/// The URL of the template catalogue.
pub fn options_url() -> (r: String)
    ensures
        r@ == "https://pyritecloud.github.io/workflows/templates/options.json"@,
{
    "https://pyritecloud.github.io/workflows/templates/options.json".to_owned()
}

/// The URL of a template's variable sheet.
pub fn vars_url(path: &str) -> (r: String)
    ensures
        r@ == "https://pyritecloud.github.io/workflows"@ + path@ + "/vars.json"@,
{
    let mut url = "https://pyritecloud.github.io/workflows".to_owned();
    url.append(path);
    url.append("/vars.json");
    url
}

/// The URL of a template's file: the sheet's own file name, or the
/// Dockerfile by default.
pub open spec fn spec_template_file_url(path: Seq<char>, name: Seq<char>) -> Seq<char> {
    "https://pyritecloud.github.io/workflows"@ + path + "/"@ + name
}

/// What the question loop does after one round: follow the sheet's `after`
/// target (still to be rendered against the answers), or fetch the final
/// file the sheet names — the Dockerfile when it names none.
pub enum TemplateStep {
    Goto(String),
    File(String),
}

pub fn next_step(path: &str, vars: TemplateVars) -> (r: TemplateStep)
    ensures
        match vars.after {
            Option::Some(a) => r matches TemplateStep::Goto(g) && g == a.goto,
            Option::None => r matches TemplateStep::File(u) && u@ == spec_template_file_url(
                path@,
                match vars.name {
                    Option::Some(n) => n@,
                    Option::None => "Dockerfile"@,
                },
            ),
        },
{
    match vars.after {
        Option::Some(a) => TemplateStep::Goto(a.goto),
        Option::None => {
            let mut url = "https://pyritecloud.github.io/workflows".to_owned();
            url.append(path);
            url.append("/");
            match vars.name {
                Option::Some(n) => url.append(n.as_str()),
                Option::None => url.append("Dockerfile"),
            }
            TemplateStep::File(url)
        },
    }
}

// ---------------------------------------------------------------------------
// The handlebars registry
// ---------------------------------------------------------------------------
#[verifier::external_type_specification]
#[verifier::external_body]
pub struct ExHandlebars<'a>(handlebars::Handlebars<'a>);

/// The templates a registry holds, by name and source text.
pub uninterp spec fn hb_templates(h: handlebars::Handlebars<'static>) -> Map<
    Seq<char>,
    Seq<char>,
>;

/// Whether handlebars accepts this template text.
pub uninterp spec fn hb_template_ok(tmpl: Seq<char>) -> bool;

/// A template the registry turned down.
#[derive(Debug, Clone, Copy, PartialEq, Eq, Structural)]
pub enum TemplateError {
    Rejected,
}

/// Relies on handlebars' `Registry::register_template_string`: whether the
/// template compiles depends on its text alone; on success the template is
/// stored under the given name, and a rejected template leaves the registry
/// unchanged.
#[verifier::external_body]
fn register_template(registry: &mut handlebars::Handlebars<'static>, name: &str, tmpl: &str)
    -> (r: Result<(), TemplateError>)
    ensures
        (r is Ok) == hb_template_ok(tmpl@),
        r is Ok ==> hb_templates(*final(registry)) == hb_templates(*old(registry)).insert(
            name@,
            tmpl@,
        ),
        r is Err ==> hb_templates(*final(registry)) == hb_templates(*old(registry)),
{
    registry.register_template_string(name, tmpl).map_err(|_e| TemplateError::Rejected)
}

/// Registers every built-in template: afterwards the registry holds each of
/// them under its name, or the rejected one's error is surfaced with the
/// registry unchanged.
pub fn setup_templates(registry: &mut handlebars::Handlebars<'static>) -> (r: Result<
    (),
    TemplateError,
>)
    ensures
        r is Ok ==> hb_templates(*final(registry)) == hb_templates(*old(registry)).insert(
            Templates::Dart.spec_name(),
            Templates::Dart.spec_template(),
        ),
        r is Err ==> hb_templates(*final(registry)) == hb_templates(*old(registry)),
        (r is Ok) == hb_template_ok(Templates::Dart.spec_template()),
{
    let dart = Templates::Dart;
    let name = dart.get_name();
    let tmpl = dart.get_template();
    register_template(registry, name.as_str(), tmpl.as_str())
}

} // verus!
