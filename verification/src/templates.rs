//! The connector templates, and the registry that holds them.

use crate::connector_generator::template_name;
use crate::scanner::CategoryModel;
use handlebars::{Handlebars, TemplateError};
use vstd::prelude::*;

verus! {

/// The template of a connector for an API endpoint.
pub const API_TEMPLATE: &'static str = r#"{
  "connector_id": "{{connector_id}}",
  "name": "{{name}}",
  "type": "api",
  "version": "1.0",
  "endpoint": {
    "protocol": "{{protocol}}",
    "host": "{{host}}",
    "port": {{port}},
    "base_path": "{{base_path}}",
    "authentication": {
      "type": "{{auth_type}}",
      "params": {}
    }
  },
  "polling_interval": {{polling_interval}},
  "transformations": [
    {
      "type": "jq",
      "expression": "{{default_transformation}}"
    }
  ],
  "metadata": {{metadata}}
}"#;

/// The template of a connector for a log source.
pub const LOG_TEMPLATE: &'static str = r#"{
  "connector_id": "{{connector_id}}",
  "name": "{{name}}",
  "type": "log",
  "version": "1.0",
  "source": {
    "protocol": "{{protocol}}",
    "host": "{{host}}",
    "port": {{port}},
    "format": "{{format}}"
  },
  "filters": [
    {
      "field": "severity",
      "operator": ">=",
      "value": "{{min_severity}}"
    }
  ],
  "parsing": {
    "pattern": "{{log_pattern}}",
    "time_format": "{{time_format}}"
  },
  "metadata": {{metadata}}
}"#;

/// The template of a connector for a database.
pub const DATABASE_TEMPLATE: &'static str = r#"{
  "connector_id": "{{connector_id}}",
  "name": "{{name}}",
  "type": "database",
  "version": "1.0",
  "connection": {
    "type": "{{db_type}}",
    "host": "{{host}}",
    "port": {{port}},
    "authentication": {
      "type": "{{auth_type}}",
      "params": {}
    }
  },
  "queries": [
    {
      "name": "default_health_check",
      "sql": "{{health_query}}",
      "interval": {{polling_interval}}
    }
  ],
  "metadata": {{metadata}}
}"#;

/// The template of a connector for a message queue.
pub const MESSAGE_QUEUE_TEMPLATE: &'static str = r#"{
  "connector_id": "{{connector_id}}",
  "name": "{{name}}",
  "type": "message_queue",
  "version": "1.0",
  "connection": {
    "protocol": "{{protocol}}",
    "host": "{{host}}",
    "port": {{port}},
    "authentication": {
      "type": "{{auth_type}}",
      "params": {}
    }
  },
  "topics": [
    "{{default_topic}}"
  ],
  "processing": {
    "type": "{{processing_type}}",
    "config": {}
  },
  "metadata": {{metadata}}
}"#;

/// The template of a connector for any other service.
pub const GENERIC_TEMPLATE: &'static str = r#"{
  "connector_id": "{{connector_id}}",
  "name": "{{name}}",
  "type": "generic",
  "version": "1.0",
  "connection": {
    "protocol": "{{protocol}}",
    "host": "{{host}}",
    "port": {{port}}
  },
  "health_check": {
    "type": "tcp_connection",
    "interval": {{polling_interval}}
  },
  "metadata": {{metadata}}
}"#;

/// The built-in templates: their texts, by name.
pub open spec fn builtin_templates() -> Map<Seq<char>, Seq<char>> {
    map![
        "api_connector"@ => API_TEMPLATE@,
        "log_connector"@ => LOG_TEMPLATE@,
        "database_connector"@ => DATABASE_TEMPLATE@,
        "message_queue_connector"@ => MESSAGE_QUEUE_TEMPLATE@,
        "generic_connector"@ => GENERIC_TEMPLATE@,
    ]
}

/// The template for every kind of endpoint is built in.
pub proof fn lemma_every_kind_has_a_template(category: CategoryModel)
    ensures
        builtin_templates().contains_key(template_name(category)),
{
}

/// The type `handlebars::Handlebars`, a registry of compiled templates;
/// nothing is known of what is inside.
#[verifier::external_type_specification]
#[verifier::external_body]
pub struct ExHandlebars<'reg>(Handlebars<'reg>);

/// The type `handlebars::TemplateError`; nothing is known of what is
/// inside.
#[verifier::external_type_specification]
#[verifier::external_body]
pub struct ExTemplateError(TemplateError);

/// The templates that a registry holds: the text from which each was
/// compiled, by the name under which it was registered.
pub uninterp spec fn registered_templates(registry: Handlebars<'static>) -> Map<Seq<char>, Seq<char>>;

/// What a registry without templates holds.
pub open spec fn no_templates() -> Map<Seq<char>, Seq<char>> {
    Map::empty()
}

/// Calls `Handlebars::new`, which makes a registry without templates.
#[verifier::external_body]
fn empty_registry() -> (made: Handlebars<'static>)
    ensures
        registered_templates(made) == no_templates(),
{
    Handlebars::new()
}

/// Whether the template engine compiles `source`, which depends on the
/// text alone.
pub uninterp spec fn template_compiles(source: Seq<char>) -> bool;

/// Calls `Handlebars::register_template_string`, which compiles `source`
/// and, if that succeeds, keeps the result under `name` in place of what
/// was there; if it fails, the registry is left as it was. Whether a
/// text compiles depends on the text alone: the name goes into the
/// result and into the error only.
#[verifier::external_body]
fn register_template_text(registry: &mut Handlebars<'static>, name: &str, source: &str) -> (r:
    Result<(), TemplateError>)
    ensures
        r is Ok <==> template_compiles(source@),
        r is Ok ==> registered_templates(*final(registry)) == registered_templates(
            *old(registry),
        ).insert(name@, source@),
        r is Err ==> registered_templates(*final(registry)) == registered_templates(*old(registry)),
{
    registry.register_template_string(name, source)
}

/// Renders a `handlebars::TemplateError` as text, through its `Display`.
/// Nothing is claimed about the text.
#[verifier::external_body]
fn template_error_text(error: &TemplateError) -> String {
    error.to_string()
}

/// A template that could not be registered.
#[derive(Debug)]
pub struct TemplateFailure {
    /// The name of the template.
    pub template: &'static str,
    /// What the template engine said.
    pub message: String,
}

/// What is reported of the template called `name` that the template
/// engine refused with `error`.
pub fn failure_of(name: &'static str, error: &TemplateError) -> (failure: TemplateFailure)
    ensures
        failure.template@ == name@,
{
    TemplateFailure { template: name, message: template_error_text(error) }
}

/// Registers `source` under `name`.
fn register(registry: &mut Handlebars<'static>, name: &'static str, source: &'static str) -> (r:
    Result<(), TemplateFailure>)
    ensures
        r is Ok <==> template_compiles(source@),
        r is Ok ==> registered_templates(*final(registry)) == registered_templates(
            *old(registry),
        ).insert(name@, source@),
        r matches Err(failure) ==> failure.template@ == name@ && registered_templates(
            *final(registry),
        ) == registered_templates(*old(registry)),
{
    match register_template_text(registry, name, source) {
        Ok(()) => Ok(()),
        Err(error) => Err(failure_of(name, &error)),
    }
}

/// What a registry that held `held` holds once the first `n` built-in
/// templates are registered.
pub open spec fn with_builtins(held: Map<Seq<char>, Seq<char>>, n: nat) -> Map<Seq<char>, Seq<char>> {
    let one = if n >= 1 {
        held.insert("api_connector"@, API_TEMPLATE@)
    } else {
        held
    };
    let two = if n >= 2 {
        one.insert("log_connector"@, LOG_TEMPLATE@)
    } else {
        one
    };
    let three = if n >= 3 {
        two.insert("database_connector"@, DATABASE_TEMPLATE@)
    } else {
        two
    };
    let four = if n >= 4 {
        three.insert("message_queue_connector"@, MESSAGE_QUEUE_TEMPLATE@)
    } else {
        three
    };
    if n >= 5 {
        four.insert("generic_connector"@, GENERIC_TEMPLATE@)
    } else {
        four
    }
}

/// The position of a built-in template in the order of registration, and
/// 5 for any other name.
pub open spec fn builtin_position(name: Seq<char>) -> nat {
    if name == "api_connector"@ {
        0
    } else if name == "log_connector"@ {
        1
    } else if name == "database_connector"@ {
        2
    } else if name == "message_queue_connector"@ {
        3
    } else if name == "generic_connector"@ {
        4
    } else {
        5
    }
}

/// The position, in the order of registration, of the first built-in
/// template that the template engine does not compile, and 5 where it
/// compiles them all.
pub open spec fn first_refused() -> nat {
    if !template_compiles(API_TEMPLATE@) {
        0
    } else if !template_compiles(LOG_TEMPLATE@) {
        1
    } else if !template_compiles(DATABASE_TEMPLATE@) {
        2
    } else if !template_compiles(MESSAGE_QUEUE_TEMPLATE@) {
        3
    } else if !template_compiles(GENERIC_TEMPLATE@) {
        4
    } else {
        5
    }
}

/// Registers the built-in templates, in order. It succeeds where the
/// template engine compiles all five; else it stops at the first that
/// does not compile and names it, and the registry then holds those
/// before it.
pub fn register_templates(registry: &mut Handlebars<'static>) -> (r: Result<(), TemplateFailure>)
    ensures
        r is Ok <==> first_refused() == 5,
        r matches Err(failure) ==> builtin_position(failure.template@) == first_refused(),
        registered_templates(*final(registry)) == with_builtins(
            registered_templates(*old(registry)),
            first_refused(),
        ),
{
    proof {
        reveal_strlit("api_connector");
        reveal_strlit("log_connector");
        reveal_strlit("database_connector");
        reveal_strlit("message_queue_connector");
        reveal_strlit("generic_connector");
        assert("log_connector"@[0] == 'l');
        assert("database_connector"@[0] == 'd');
        assert("message_queue_connector"@[0] == 'm');
        assert("generic_connector"@[0] == 'g');
    }
    match register(registry, "api_connector", API_TEMPLATE) {
        Ok(()) => {},
        Err(failure) => {
            return Err(failure);
        },
    }
    match register(registry, "log_connector", LOG_TEMPLATE) {
        Ok(()) => {},
        Err(failure) => {
            return Err(failure);
        },
    }
    match register(registry, "database_connector", DATABASE_TEMPLATE) {
        Ok(()) => {},
        Err(failure) => {
            return Err(failure);
        },
    }
    match register(registry, "message_queue_connector", MESSAGE_QUEUE_TEMPLATE) {
        Ok(()) => {},
        Err(failure) => {
            return Err(failure);
        },
    }
    match register(registry, "generic_connector", GENERIC_TEMPLATE) {
        Ok(()) => {},
        Err(failure) => {
            return Err(failure);
        },
    }
    Ok(())
}

/// A registry that holds the built-in templates and no others: made
/// where the template engine compiles all five, else the first that does
/// not compile is named.
pub fn template_registry() -> (r: Result<Handlebars<'static>, TemplateFailure>)
    ensures
        r is Ok <==> first_refused() == 5,
        r matches Ok(registry) ==> registered_templates(registry) == builtin_templates(),
        r matches Err(failure) ==> builtin_position(failure.template@) == first_refused(),
{
    let mut registry = empty_registry();
    match register_templates(&mut registry) {
        Ok(()) => {
            Ok(registry)
        },
        Err(failure) => Err(failure),
    }
}

} // verus!
