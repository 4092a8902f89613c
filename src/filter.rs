use vstd::prelude::*;
use crate::date::{date_text, Date};
use crate::region::Region;
use crate::text::{decimal, u64_text};

verus! {

/// Query parameters as key/value texts, in order.
pub open spec fn params_view(v: Seq<(String, String)>) -> Seq<(Seq<char>, Seq<char>)> {
    v.map_values(|p: (String, String)| (p.0@, p.1@))
}

/// A value that can stand in a query parameter.
pub trait AsParameter {
    /// Well-formedness the value must have to be written.
    spec fn parameter_ready(&self) -> bool;

    /// The text the value is written as.
    spec fn parameter_text(&self) -> Seq<char>;

    fn as_parameter(&self) -> (r: String)
        requires
            self.parameter_ready(),
        ensures
            r@ == self.parameter_text(),
    ;
}

impl AsParameter for String {
    open spec fn parameter_ready(&self) -> bool {
        true
    }

    open spec fn parameter_text(&self) -> Seq<char> {
        self@
    }

    fn as_parameter(&self) -> (r: String) {
        self.clone()
    }
}

impl AsParameter for u32 {
    open spec fn parameter_ready(&self) -> bool {
        true
    }

    open spec fn parameter_text(&self) -> Seq<char> {
        decimal(*self as nat)
    }

    fn as_parameter(&self) -> (r: String) {
        u64_text(*self as u64)
    }
}

impl AsParameter for u64 {
    open spec fn parameter_ready(&self) -> bool {
        true
    }

    open spec fn parameter_text(&self) -> Seq<char> {
        decimal(*self as nat)
    }

    fn as_parameter(&self) -> (r: String) {
        u64_text(*self)
    }
}

impl AsParameter for Date {
    open spec fn parameter_ready(&self) -> bool {
        self.wf()
    }

    open spec fn parameter_text(&self) -> Seq<char> {
        date_text(self.year as int, self.month as int, self.day as int)
    }

    fn as_parameter(&self) -> (r: String) {
        self.to_text()
    }
}

impl AsParameter for Region {
    open spec fn parameter_ready(&self) -> bool {
        true
    }

    /// Queries name a region by its numeric code, not by its name.
    open spec fn parameter_text(&self) -> Seq<char> {
        decimal(self.spec_code())
    }

    fn as_parameter(&self) -> (r: String) {
        u64_text(self.code())
    }
}

/// How one field of a query is filtered.
pub enum Where<T: AsParameter> {
    /// The field is left out of the query.
    Unspecified,
    /// The comparison the API uses by default for this field.
    Matches(T),
    /// Exact match (`=`).
    Equal(T),
    /// Pattern match, `*` as wildcard (`LIKE`).
    Like(T),
    /// Greater than (`>`).
    GreaterThan(T),
    /// Greater than or equal (`>=`).
    GreaterThanOrEqual(T),
    /// Inclusive range (`BETWEEN`), the bounds joined by `|`.
    Between(T, T),
}

/// The key that carries the comparison of field `name`.
pub open spec fn where_key(name: Seq<char>) -> Seq<char> {
    name + "_where"@
}

/// The two parameters of an explicit comparison: operator first, value second.
pub open spec fn operator_params(name: Seq<char>, op: Seq<char>, value: Seq<char>) -> Seq<
    (Seq<char>, Seq<char>),
> {
    seq![(where_key(name), op), (name, value)]
}

impl<T: AsParameter> Where<T> {
    /// The values held are ready to be written.
    pub open spec fn wf(&self) -> bool {
        match self {
            Where::Unspecified => true,
            Where::Matches(v) => v.parameter_ready(),
            Where::Equal(v) => v.parameter_ready(),
            Where::Like(v) => v.parameter_ready(),
            Where::GreaterThan(v) => v.parameter_ready(),
            Where::GreaterThanOrEqual(v) => v.parameter_ready(),
            Where::Between(a, b) => a.parameter_ready() && b.parameter_ready(),
        }
    }

    /// The parameters that filter field `name` by this value.
    pub open spec fn encode(&self, name: Seq<char>) -> Seq<(Seq<char>, Seq<char>)> {
        match self {
            Where::Unspecified => Seq::empty(),
            Where::Matches(v) => seq![(name, v.parameter_text())],
            Where::Equal(v) => operator_params(name, "="@, v.parameter_text()),
            Where::Like(v) => operator_params(name, "LIKE"@, v.parameter_text()),
            Where::GreaterThan(v) => operator_params(name, ">"@, v.parameter_text()),
            Where::GreaterThanOrEqual(v) => operator_params(name, ">="@, v.parameter_text()),
            Where::Between(a, b) => operator_params(
                name,
                "BETWEEN"@,
                a.parameter_text() + "|"@ + b.parameter_text(),
            ),
        }
    }

    /// The parameters that filter field `name` by this value.
    pub fn as_parameters(&self, name: &str) -> (r: Vec<(String, String)>)
        requires
            self.wf(),
        ensures
            params_view(r@) == self.encode(name@),
    {
        let r = match self {
            Where::Unspecified => Vec::new(),
            Where::Matches(v) => {
                let mut r = Vec::new();
                r.push((name.to_owned(), v.as_parameter()));
                r
            },
            Where::Equal(v) => comparison(name, "=", v.as_parameter()),
            Where::Like(v) => comparison(name, "LIKE", v.as_parameter()),
            Where::GreaterThan(v) => comparison(name, ">", v.as_parameter()),
            Where::GreaterThanOrEqual(v) => comparison(name, ">=", v.as_parameter()),
            Where::Between(a, b) => {
                let mut value = a.as_parameter();
                value.append("|");
                value.append(b.as_parameter().as_str());
                comparison(name, "BETWEEN", value)
            },
        };
        proof {
            assert(params_view(r@) =~= self.encode(name@));
        }
        r
    }
}

impl<T: AsParameter> Default for Where<T> {
    fn default() -> (r: Self)
        ensures
            r is Unspecified,
    {
        Where::Unspecified
    }
}

/// The operator parameter, then the value parameter, of field `name`.
fn comparison(name: &str, op: &str, value: String) -> (r: Vec<(String, String)>)
    ensures
        params_view(r@) == operator_params(name@, op@, value@),
{
    let mut key = name.to_owned();
    key.append("_where");
    let mut r = Vec::new();
    r.push((key, op.to_owned()));
    r.push((name.to_owned(), value));
    proof {
        assert(params_view(r@) =~= operator_params(name@, op@, value@));
    }
    r
}

} // verus!
