use vstd::prelude::*;

verus! {

/// A temperature scale, as chosen in one of the two unit selectors.
/// `Unspecified` is the state of a selector before the user picks a scale.
#[derive(Clone, Copy, Debug, PartialEq, Eq, Structural)]
pub enum Temperature {
    Fahrenheit,
    Celsius,
    Kelvin,
    Unspecified,
}

impl Temperature {
    /// The display name of each scale.
    pub open spec fn spec_name(self) -> Seq<char> {
        match self {
            Temperature::Fahrenheit => "Fahrenheit"@,
            Temperature::Celsius => "Celsius"@,
            Temperature::Kelvin => "Kelvin"@,
            Temperature::Unspecified => "Unspecified"@,
        }
    }

    /// The name a selector shows for this scale.
    pub fn name(&self) -> (n: String)
        ensures
            n@ == self.spec_name(),
    {
        match self {
            Temperature::Fahrenheit => "Fahrenheit".to_owned(),
            Temperature::Celsius => "Celsius".to_owned(),
            Temperature::Kelvin => "Kelvin".to_owned(),
            Temperature::Unspecified => "Unspecified".to_owned(),
        }
    }

    /// Every scale, in declaration order; the list a selector offers.
    pub fn all() -> (v: Vec<Temperature>)
        ensures
            v@ == seq![
                Temperature::Fahrenheit,
                Temperature::Celsius,
                Temperature::Kelvin,
                Temperature::Unspecified,
            ],
    {
        let mut v: Vec<Temperature> = Vec::new();
        v.push(Temperature::Fahrenheit);
        v.push(Temperature::Celsius);
        v.push(Temperature::Kelvin);
        v.push(Temperature::Unspecified);
        proof {
            assert(v@ =~= seq![
                Temperature::Fahrenheit,
                Temperature::Celsius,
                Temperature::Kelvin,
                Temperature::Unspecified,
            ]);
        }
        v
    }
}

} // verus!
