use vstd::prelude::*;

verus! {

/// The identity of a physical quantity: its name, its conventional
/// abbreviation and its unit, as found in the static parameter tables.
#[derive(Clone, Copy, Debug)]
pub struct Parameter {
    pub name: &'static str,
    pub abbreviation: &'static str,
    pub unit: &'static str,
}

/// A parameter-table entry as the views of its three strings; the spec-side
/// shape of a `Parameter`.
pub type ParameterEntry = (Seq<char>, Seq<char>, Seq<char>);

impl Parameter {
    /// The spec-side image of this parameter.
    pub open spec fn entry(&self) -> ParameterEntry {
        (self.name@, self.abbreviation@, self.unit@)
    }
}

/// How the members of a cluster were selected.
#[derive(PartialEq, Eq, Structural, Clone, Copy, Debug)]
pub enum ClusteringMethod {
    AnomolyCorrelation,
    RMS,
}

/// The clustering method denoted by a code byte.
pub open spec fn clustering_method_of(code: u8) -> Option<ClusteringMethod> {
    if code == 0 {
        Some(ClusteringMethod::AnomolyCorrelation)
    } else if code == 1 {
        Some(ClusteringMethod::RMS)
    } else {
        None
    }
}

impl ClusteringMethod {
    /// Decodes a clustering-method code byte.
    pub fn from_value(code: u8) -> (r: Option<ClusteringMethod>)
        ensures
            r == clustering_method_of(code),
    {
        if code == 0 {
            Some(ClusteringMethod::AnomolyCorrelation)
        } else if code == 1 {
            Some(ClusteringMethod::RMS)
        } else {
            None
        }
    }

    /// The code byte that denotes this method.
    pub fn code(&self) -> (r: u8)
        ensures
            clustering_method_of(r) == Some(*self),
    {
        match self {
            ClusteringMethod::AnomolyCorrelation => 0,
            ClusteringMethod::RMS => 1,
        }
    }

    /// A human-readable name for the method.
    pub fn description(&self) -> &'static str {
        match self {
            ClusteringMethod::AnomolyCorrelation => "anomoly correlation",
            ClusteringMethod::RMS => "root mean square",
        }
    }
}

/// The kind of surface a fixed-surface descriptor refers to.
#[derive(PartialEq, Eq, Structural, Clone, Copy, Debug)]
pub enum FixedSurfaceTypes {
    GroundOrWater,
    CloudBase,
    CloudTop,
    OrderedSequence,
}

/// The code of the fixed-surface type that repurposes its scaled value as
/// an array index into a set of companion messages.
pub const ORDERED_SEQUENCE_SURFACE_CODE: u8 = 241;

/// The fixed-surface type denoted by a code byte.
pub open spec fn fixed_surface_type_of(code: u8) -> Option<FixedSurfaceTypes> {
    if code == 1 {
        Some(FixedSurfaceTypes::GroundOrWater)
    } else if code == 2 {
        Some(FixedSurfaceTypes::CloudBase)
    } else if code == 3 {
        Some(FixedSurfaceTypes::CloudTop)
    } else if code == 241 {
        Some(FixedSurfaceTypes::OrderedSequence)
    } else {
        None
    }
}

impl FixedSurfaceTypes {
    /// Decodes a fixed-surface-type code byte.
    pub fn from_value(code: u8) -> (r: Option<FixedSurfaceTypes>)
        ensures
            r == fixed_surface_type_of(code),
    {
        if code == 1 {
            Some(FixedSurfaceTypes::GroundOrWater)
        } else if code == 2 {
            Some(FixedSurfaceTypes::CloudBase)
        } else if code == 3 {
            Some(FixedSurfaceTypes::CloudTop)
        } else if code == 241 {
            Some(FixedSurfaceTypes::OrderedSequence)
        } else {
            None
        }
    }

    /// The code byte that denotes this surface type.
    pub fn code(&self) -> (r: u8)
        ensures
            fixed_surface_type_of(r) == Some(*self),
    {
        match self {
            FixedSurfaceTypes::GroundOrWater => 1,
            FixedSurfaceTypes::CloudBase => 2,
            FixedSurfaceTypes::CloudTop => 3,
            FixedSurfaceTypes::OrderedSequence => 241,
        }
    }

    /// A human-readable name for the surface type.
    pub fn description(&self) -> &'static str {
        match self {
            FixedSurfaceTypes::GroundOrWater => "ground or water surface",
            FixedSurfaceTypes::CloudBase => "cloud base level",
            FixedSurfaceTypes::CloudTop => "cloud tops level",
            FixedSurfaceTypes::OrderedSequence => "Ordered Sequence of Data",
        }
    }
}

/// The process that generated the data.
#[derive(PartialEq, Eq, Structural, Clone, Copy, Debug)]
pub enum GeneratingProcess {
    Analysis,
    Initialization,
    Forecast,
    BiasCorrectedForecast,
    EnsembleForecast,
    ProbabilityForecast,
    ForecastError,
    AnalysisError,
    Observation,
    Climatological,
    ProbabilityWeightedForecast,
    BiasCorrectedEnsembleForecast,
    PostProcessedAnalysis,
    PostProcessedForecast,
    Nowcast,
    Hindcast,
    PhysicalRetrieval,
    RegressionAnalysis,
    DifferenceBetweenTwoForecasts,
    ForecastConfidenceIndicator,
    ProbabilityMatchedMean,
    NeighborhoodProbability,
    BiasCorrectedDownscaledEnsembleForecast,
    PerturbedAnalysisForEnsembleInitialization,
}

/// The generating process denoted by a code byte.
pub open spec fn generating_process_of(code: u8) -> Option<GeneratingProcess> {
    if code == 0 {
        Some(GeneratingProcess::Analysis)
    } else if code == 1 {
        Some(GeneratingProcess::Initialization)
    } else if code == 2 {
        Some(GeneratingProcess::Forecast)
    } else if code == 3 {
        Some(GeneratingProcess::BiasCorrectedForecast)
    } else if code == 4 {
        Some(GeneratingProcess::EnsembleForecast)
    } else if code == 5 {
        Some(GeneratingProcess::ProbabilityForecast)
    } else if code == 6 {
        Some(GeneratingProcess::ForecastError)
    } else if code == 7 {
        Some(GeneratingProcess::AnalysisError)
    } else if code == 8 {
        Some(GeneratingProcess::Observation)
    } else if code == 9 {
        Some(GeneratingProcess::Climatological)
    } else if code == 10 {
        Some(GeneratingProcess::ProbabilityWeightedForecast)
    } else if code == 11 {
        Some(GeneratingProcess::BiasCorrectedEnsembleForecast)
    } else if code == 12 {
        Some(GeneratingProcess::PostProcessedAnalysis)
    } else if code == 13 {
        Some(GeneratingProcess::PostProcessedForecast)
    } else if code == 14 {
        Some(GeneratingProcess::Nowcast)
    } else if code == 15 {
        Some(GeneratingProcess::Hindcast)
    } else if code == 16 {
        Some(GeneratingProcess::PhysicalRetrieval)
    } else if code == 17 {
        Some(GeneratingProcess::RegressionAnalysis)
    } else if code == 18 {
        Some(GeneratingProcess::DifferenceBetweenTwoForecasts)
    } else if code == 192 {
        Some(GeneratingProcess::ForecastConfidenceIndicator)
    } else if code == 193 {
        Some(GeneratingProcess::ProbabilityMatchedMean)
    } else if code == 194 {
        Some(GeneratingProcess::NeighborhoodProbability)
    } else if code == 195 {
        Some(GeneratingProcess::BiasCorrectedDownscaledEnsembleForecast)
    } else if code == 196 {
        Some(GeneratingProcess::PerturbedAnalysisForEnsembleInitialization)
    } else {
        None
    }
}

impl GeneratingProcess {
    /// Decodes a generating-process code byte.
    pub fn from_value(code: u8) -> (r: Option<GeneratingProcess>)
        ensures
            r == generating_process_of(code),
    {
        if code == 0 {
            Some(GeneratingProcess::Analysis)
        } else if code == 1 {
            Some(GeneratingProcess::Initialization)
        } else if code == 2 {
            Some(GeneratingProcess::Forecast)
        } else if code == 3 {
            Some(GeneratingProcess::BiasCorrectedForecast)
        } else if code == 4 {
            Some(GeneratingProcess::EnsembleForecast)
        } else if code == 5 {
            Some(GeneratingProcess::ProbabilityForecast)
        } else if code == 6 {
            Some(GeneratingProcess::ForecastError)
        } else if code == 7 {
            Some(GeneratingProcess::AnalysisError)
        } else if code == 8 {
            Some(GeneratingProcess::Observation)
        } else if code == 9 {
            Some(GeneratingProcess::Climatological)
        } else if code == 10 {
            Some(GeneratingProcess::ProbabilityWeightedForecast)
        } else if code == 11 {
            Some(GeneratingProcess::BiasCorrectedEnsembleForecast)
        } else if code == 12 {
            Some(GeneratingProcess::PostProcessedAnalysis)
        } else if code == 13 {
            Some(GeneratingProcess::PostProcessedForecast)
        } else if code == 14 {
            Some(GeneratingProcess::Nowcast)
        } else if code == 15 {
            Some(GeneratingProcess::Hindcast)
        } else if code == 16 {
            Some(GeneratingProcess::PhysicalRetrieval)
        } else if code == 17 {
            Some(GeneratingProcess::RegressionAnalysis)
        } else if code == 18 {
            Some(GeneratingProcess::DifferenceBetweenTwoForecasts)
        } else if code == 192 {
            Some(GeneratingProcess::ForecastConfidenceIndicator)
        } else if code == 193 {
            Some(GeneratingProcess::ProbabilityMatchedMean)
        } else if code == 194 {
            Some(GeneratingProcess::NeighborhoodProbability)
        } else if code == 195 {
            Some(GeneratingProcess::BiasCorrectedDownscaledEnsembleForecast)
        } else if code == 196 {
            Some(GeneratingProcess::PerturbedAnalysisForEnsembleInitialization)
        } else {
            None
        }
    }
}

/// The unit of a forecast-time offset.
#[derive(PartialEq, Eq, Structural, Clone, Copy, Debug)]
pub enum TimeUnit {
    Minute,
    Hour,
    Day,
    Month,
    Year,
    Decade,
    Normal,
    Century,
    ThreeHours,
    SixHours,
    TwelveHours,
}

/// The time unit denoted by a code byte.
pub open spec fn time_unit_of(code: u8) -> Option<TimeUnit> {
    if code == 0 {
        Some(TimeUnit::Minute)
    } else if code == 1 {
        Some(TimeUnit::Hour)
    } else if code == 2 {
        Some(TimeUnit::Day)
    } else if code == 3 {
        Some(TimeUnit::Month)
    } else if code == 4 {
        Some(TimeUnit::Year)
    } else if code == 5 {
        Some(TimeUnit::Decade)
    } else if code == 6 {
        Some(TimeUnit::Normal)
    } else if code == 7 {
        Some(TimeUnit::Century)
    } else if code == 8 {
        Some(TimeUnit::ThreeHours)
    } else if code == 9 {
        Some(TimeUnit::SixHours)
    } else if code == 10 {
        Some(TimeUnit::TwelveHours)
    } else {
        None
    }
}

/// The length of one step of each unit, in seconds; the calendar units are
/// the conventional fixed approximations (30-day month, 365-day year).
pub open spec fn time_unit_seconds(u: TimeUnit) -> u64 {
    match u {
        TimeUnit::Minute => 60,
        TimeUnit::Hour => 3600,
        TimeUnit::Day => 86400,
        TimeUnit::Month => 2592000,
        TimeUnit::Year => 31536000,
        TimeUnit::Decade => 315360000,
        TimeUnit::Normal => 946080000,
        TimeUnit::Century => 3153600000,
        TimeUnit::ThreeHours => 10800,
        TimeUnit::SixHours => 21600,
        TimeUnit::TwelveHours => 43200,
    }
}

impl TimeUnit {
    /// Decodes a time-unit code byte.
    pub fn from_value(code: u8) -> (r: Option<TimeUnit>)
        ensures
            r == time_unit_of(code),
    {
        if code == 0 {
            Some(TimeUnit::Minute)
        } else if code == 1 {
            Some(TimeUnit::Hour)
        } else if code == 2 {
            Some(TimeUnit::Day)
        } else if code == 3 {
            Some(TimeUnit::Month)
        } else if code == 4 {
            Some(TimeUnit::Year)
        } else if code == 5 {
            Some(TimeUnit::Decade)
        } else if code == 6 {
            Some(TimeUnit::Normal)
        } else if code == 7 {
            Some(TimeUnit::Century)
        } else if code == 8 {
            Some(TimeUnit::ThreeHours)
        } else if code == 9 {
            Some(TimeUnit::SixHours)
        } else if code == 10 {
            Some(TimeUnit::TwelveHours)
        } else {
            None
        }
    }

    /// The length of one step of this unit, in seconds.
    pub fn seconds(&self) -> (r: u64)
        ensures
            r == time_unit_seconds(*self),
    {
        match self {
            TimeUnit::Minute => 60,
            TimeUnit::Hour => 3600,
            TimeUnit::Day => 86400,
            TimeUnit::Month => 2592000,
            TimeUnit::Year => 31536000,
            TimeUnit::Decade => 315360000,
            TimeUnit::Normal => 946080000,
            TimeUnit::Century => 3153600000,
            TimeUnit::ThreeHours => 10800,
            TimeUnit::SixHours => 21600,
            TimeUnit::TwelveHours => 43200,
        }
    }
}

/// A temperature-category product code.
#[derive(PartialEq, Eq, Structural, Clone, Copy, Debug)]
pub enum TemperatureProduct {
    Temperature,
    VirtualTemperature,
    PotentialTemperature,
    PseudoAdiabaticPotentialTemperature,
    MaximumTemperature,
    MinimumTemperature,
    DewpointTemperature,
    DewpointDepression,
    LapseRate,
    HeatIndex,
    WindChillFactor,
}

/// A moisture-category product code.
#[derive(PartialEq, Eq, Structural, Clone, Copy, Debug)]
pub enum MoistureProduct {
    SpecificHumidity,
    RelativeHUmidity,
    HumidityMixingRatio,
    PrecipitableWater,
    Evaporation,
    PrecipitationRate,
    TotalPrecipitation,
}

/// A momentum-category product code.
#[derive(PartialEq, Eq, Structural, Clone, Copy, Debug)]
pub enum MomentumProduct {
    WindDirection,
    WindSpeed,
    UComponentWindSpeed,
    VComponentWindSpeed,
    MaximumWindSpeed,
    WindGust,
    UComponentWindGust,
    VComponentWindGust,
    WindFetch,
}

/// A mass-category product code.
#[derive(PartialEq, Eq, Structural, Clone, Copy, Debug)]
pub enum MassProduct {
    Pressure,
    PressureReducedMSL,
    PressureTendency,
}

/// The temperature product denoted by a parameter code byte.
pub open spec fn temperature_product_of(code: u8) -> Option<TemperatureProduct> {
    if code == 0 {
        Some(TemperatureProduct::Temperature)
    } else if code == 1 {
        Some(TemperatureProduct::VirtualTemperature)
    } else if code == 2 {
        Some(TemperatureProduct::PotentialTemperature)
    } else if code == 3 {
        Some(TemperatureProduct::PseudoAdiabaticPotentialTemperature)
    } else if code == 4 {
        Some(TemperatureProduct::MaximumTemperature)
    } else if code == 5 {
        Some(TemperatureProduct::MinimumTemperature)
    } else if code == 6 {
        Some(TemperatureProduct::DewpointTemperature)
    } else if code == 7 {
        Some(TemperatureProduct::DewpointDepression)
    } else if code == 8 {
        Some(TemperatureProduct::LapseRate)
    } else if code == 12 {
        Some(TemperatureProduct::HeatIndex)
    } else if code == 13 {
        Some(TemperatureProduct::WindChillFactor)
    } else {
        None
    }
}

/// The parameter record of each temperature product.
pub open spec fn temperature_parameter_entry(p: TemperatureProduct) -> ParameterEntry {
    match p {
        TemperatureProduct::Temperature => ("Temperature"@, "TMP"@, "K"@),
        TemperatureProduct::VirtualTemperature => ("Virtual Temperature"@, "VTMP"@, "K"@),
        TemperatureProduct::PotentialTemperature => ("Potential Temperature"@, "POT"@, "K"@),
        TemperatureProduct::PseudoAdiabaticPotentialTemperature => (
            "Pseudo-Adiabatic Potential Temperature"@,
            "EPOT"@,
            "K"@,
        ),
        TemperatureProduct::MaximumTemperature => ("Maximum Temperature"@, "TMAX"@, "K"@),
        TemperatureProduct::MinimumTemperature => ("Minimum Temperature"@, "TMIN"@, "K"@),
        TemperatureProduct::DewpointTemperature => ("Dewpoint Temperature"@, "DPT"@, "K"@),
        TemperatureProduct::DewpointDepression => ("Dewpoint Depression"@, "DEPR"@, "K"@),
        TemperatureProduct::LapseRate => ("Lapse Rate"@, "LAPR"@, "K m-1"@),
        TemperatureProduct::HeatIndex => ("Heat Index"@, "HEATX"@, "K"@),
        TemperatureProduct::WindChillFactor => ("Wind Chill Factor"@, "WCF"@, "K"@),
    }
}

impl TemperatureProduct {
    /// Decodes a temperature parameter code byte.
    pub fn from_value(code: u8) -> (r: Option<TemperatureProduct>)
        ensures
            r == temperature_product_of(code),
    {
        if code == 0 {
            Some(TemperatureProduct::Temperature)
        } else if code == 1 {
            Some(TemperatureProduct::VirtualTemperature)
        } else if code == 2 {
            Some(TemperatureProduct::PotentialTemperature)
        } else if code == 3 {
            Some(TemperatureProduct::PseudoAdiabaticPotentialTemperature)
        } else if code == 4 {
            Some(TemperatureProduct::MaximumTemperature)
        } else if code == 5 {
            Some(TemperatureProduct::MinimumTemperature)
        } else if code == 6 {
            Some(TemperatureProduct::DewpointTemperature)
        } else if code == 7 {
            Some(TemperatureProduct::DewpointDepression)
        } else if code == 8 {
            Some(TemperatureProduct::LapseRate)
        } else if code == 12 {
            Some(TemperatureProduct::HeatIndex)
        } else if code == 13 {
            Some(TemperatureProduct::WindChillFactor)
        } else {
            None
        }
    }

    /// The parameter record of this product.
    pub fn parameter(&self) -> (r: Parameter)
        ensures
            r.entry() == temperature_parameter_entry(*self),
    {
        match self {
            TemperatureProduct::Temperature => Parameter {
                name: "Temperature",
                abbreviation: "TMP",
                unit: "K",
            },
            TemperatureProduct::VirtualTemperature => Parameter {
                name: "Virtual Temperature",
                abbreviation: "VTMP",
                unit: "K",
            },
            TemperatureProduct::PotentialTemperature => Parameter {
                name: "Potential Temperature",
                abbreviation: "POT",
                unit: "K",
            },
            TemperatureProduct::PseudoAdiabaticPotentialTemperature => Parameter {
                name: "Pseudo-Adiabatic Potential Temperature",
                abbreviation: "EPOT",
                unit: "K",
            },
            TemperatureProduct::MaximumTemperature => Parameter {
                name: "Maximum Temperature",
                abbreviation: "TMAX",
                unit: "K",
            },
            TemperatureProduct::MinimumTemperature => Parameter {
                name: "Minimum Temperature",
                abbreviation: "TMIN",
                unit: "K",
            },
            TemperatureProduct::DewpointTemperature => Parameter {
                name: "Dewpoint Temperature",
                abbreviation: "DPT",
                unit: "K",
            },
            TemperatureProduct::DewpointDepression => Parameter {
                name: "Dewpoint Depression",
                abbreviation: "DEPR",
                unit: "K",
            },
            TemperatureProduct::LapseRate => Parameter {
                name: "Lapse Rate",
                abbreviation: "LAPR",
                unit: "K m-1",
            },
            TemperatureProduct::HeatIndex => Parameter {
                name: "Heat Index",
                abbreviation: "HEATX",
                unit: "K",
            },
            TemperatureProduct::WindChillFactor => Parameter {
                name: "Wind Chill Factor",
                abbreviation: "WCF",
                unit: "K",
            },
        }
    }
}

/// The moisture product denoted by a parameter code byte.
pub open spec fn moisture_product_of(code: u8) -> Option<MoistureProduct> {
    if code == 0 {
        Some(MoistureProduct::SpecificHumidity)
    } else if code == 1 {
        Some(MoistureProduct::RelativeHUmidity)
    } else if code == 2 {
        Some(MoistureProduct::HumidityMixingRatio)
    } else if code == 3 {
        Some(MoistureProduct::PrecipitableWater)
    } else if code == 4 {
        Some(MoistureProduct::Evaporation)
    } else if code == 5 {
        Some(MoistureProduct::PrecipitationRate)
    } else if code == 8 {
        Some(MoistureProduct::TotalPrecipitation)
    } else {
        None
    }
}

/// The parameter record of each moisture product.
pub open spec fn moisture_parameter_entry(p: MoistureProduct) -> ParameterEntry {
    match p {
        MoistureProduct::SpecificHumidity => ("Specific Humidity"@, "SPFH"@, "kg kg-1"@),
        MoistureProduct::RelativeHUmidity => ("Relative Humidity"@, "RH"@, "%"@),
        MoistureProduct::HumidityMixingRatio => ("Humidity Mixing Ratio"@, "MIXR"@, "kg kg-1"@),
        MoistureProduct::PrecipitableWater => ("Precipitable Water"@, "PWAT"@, "kg m-2"@),
        MoistureProduct::Evaporation => ("Evaporation"@, "EVP"@, "kg m-2"@),
        MoistureProduct::PrecipitationRate => ("Precipitation Rate"@, "PRATE"@, "kg m-2 s-1"@),
        MoistureProduct::TotalPrecipitation => ("Total Precipitation"@, "APCP"@, "kg m-2"@),
    }
}

impl MoistureProduct {
    /// Decodes a moisture parameter code byte.
    pub fn from_value(code: u8) -> (r: Option<MoistureProduct>)
        ensures
            r == moisture_product_of(code),
    {
        if code == 0 {
            Some(MoistureProduct::SpecificHumidity)
        } else if code == 1 {
            Some(MoistureProduct::RelativeHUmidity)
        } else if code == 2 {
            Some(MoistureProduct::HumidityMixingRatio)
        } else if code == 3 {
            Some(MoistureProduct::PrecipitableWater)
        } else if code == 4 {
            Some(MoistureProduct::Evaporation)
        } else if code == 5 {
            Some(MoistureProduct::PrecipitationRate)
        } else if code == 8 {
            Some(MoistureProduct::TotalPrecipitation)
        } else {
            None
        }
    }

    /// The parameter record of this product.
    pub fn parameter(&self) -> (r: Parameter)
        ensures
            r.entry() == moisture_parameter_entry(*self),
    {
        match self {
            MoistureProduct::SpecificHumidity => Parameter {
                name: "Specific Humidity",
                abbreviation: "SPFH",
                unit: "kg kg-1",
            },
            MoistureProduct::RelativeHUmidity => Parameter {
                name: "Relative Humidity",
                abbreviation: "RH",
                unit: "%",
            },
            MoistureProduct::HumidityMixingRatio => Parameter {
                name: "Humidity Mixing Ratio",
                abbreviation: "MIXR",
                unit: "kg kg-1",
            },
            MoistureProduct::PrecipitableWater => Parameter {
                name: "Precipitable Water",
                abbreviation: "PWAT",
                unit: "kg m-2",
            },
            MoistureProduct::Evaporation => Parameter {
                name: "Evaporation",
                abbreviation: "EVP",
                unit: "kg m-2",
            },
            MoistureProduct::PrecipitationRate => Parameter {
                name: "Precipitation Rate",
                abbreviation: "PRATE",
                unit: "kg m-2 s-1",
            },
            MoistureProduct::TotalPrecipitation => Parameter {
                name: "Total Precipitation",
                abbreviation: "APCP",
                unit: "kg m-2",
            },
        }
    }
}

/// The momentum product denoted by a parameter code byte.
pub open spec fn momentum_product_of(code: u8) -> Option<MomentumProduct> {
    if code == 0 {
        Some(MomentumProduct::WindDirection)
    } else if code == 1 {
        Some(MomentumProduct::WindSpeed)
    } else if code == 2 {
        Some(MomentumProduct::UComponentWindSpeed)
    } else if code == 3 {
        Some(MomentumProduct::VComponentWindSpeed)
    } else if code == 21 {
        Some(MomentumProduct::MaximumWindSpeed)
    } else if code == 22 {
        Some(MomentumProduct::WindGust)
    } else if code == 23 {
        Some(MomentumProduct::UComponentWindGust)
    } else if code == 24 {
        Some(MomentumProduct::VComponentWindGust)
    } else if code == 33 {
        Some(MomentumProduct::WindFetch)
    } else {
        None
    }
}

/// The parameter record of each momentum product.
pub open spec fn momentum_parameter_entry(p: MomentumProduct) -> ParameterEntry {
    match p {
        MomentumProduct::WindDirection => ("Wind Direction"@, "WDIR"@, "degree true"@),
        MomentumProduct::WindSpeed => ("Wind Speed"@, "WIND"@, "m s-1"@),
        MomentumProduct::UComponentWindSpeed => ("U-Component of Wind"@, "UGRD"@, "m s-1"@),
        MomentumProduct::VComponentWindSpeed => ("V-Component of Wind"@, "VGRD"@, "m s-1"@),
        MomentumProduct::MaximumWindSpeed => ("Maximum Wind Speed"@, "MAXGUST"@, "m s-1"@),
        MomentumProduct::WindGust => ("Wind Gust"@, "GUST"@, "m s-1"@),
        MomentumProduct::UComponentWindGust => ("U-Component of Wind Gust"@, "UGUST"@, "m s-1"@),
        MomentumProduct::VComponentWindGust => ("V-Component of Wind Gust"@, "VGUST"@, "m s-1"@),
        MomentumProduct::WindFetch => ("Wind Fetch"@, "FETCH"@, "m"@),
    }
}

impl MomentumProduct {
    /// Decodes a momentum parameter code byte.
    pub fn from_value(code: u8) -> (r: Option<MomentumProduct>)
        ensures
            r == momentum_product_of(code),
    {
        if code == 0 {
            Some(MomentumProduct::WindDirection)
        } else if code == 1 {
            Some(MomentumProduct::WindSpeed)
        } else if code == 2 {
            Some(MomentumProduct::UComponentWindSpeed)
        } else if code == 3 {
            Some(MomentumProduct::VComponentWindSpeed)
        } else if code == 21 {
            Some(MomentumProduct::MaximumWindSpeed)
        } else if code == 22 {
            Some(MomentumProduct::WindGust)
        } else if code == 23 {
            Some(MomentumProduct::UComponentWindGust)
        } else if code == 24 {
            Some(MomentumProduct::VComponentWindGust)
        } else if code == 33 {
            Some(MomentumProduct::WindFetch)
        } else {
            None
        }
    }

    /// The parameter record of this product.
    pub fn parameter(&self) -> (r: Parameter)
        ensures
            r.entry() == momentum_parameter_entry(*self),
    {
        match self {
            MomentumProduct::WindDirection => Parameter {
                name: "Wind Direction",
                abbreviation: "WDIR",
                unit: "degree true",
            },
            MomentumProduct::WindSpeed => Parameter {
                name: "Wind Speed",
                abbreviation: "WIND",
                unit: "m s-1",
            },
            MomentumProduct::UComponentWindSpeed => Parameter {
                name: "U-Component of Wind",
                abbreviation: "UGRD",
                unit: "m s-1",
            },
            MomentumProduct::VComponentWindSpeed => Parameter {
                name: "V-Component of Wind",
                abbreviation: "VGRD",
                unit: "m s-1",
            },
            MomentumProduct::MaximumWindSpeed => Parameter {
                name: "Maximum Wind Speed",
                abbreviation: "MAXGUST",
                unit: "m s-1",
            },
            MomentumProduct::WindGust => Parameter {
                name: "Wind Gust",
                abbreviation: "GUST",
                unit: "m s-1",
            },
            MomentumProduct::UComponentWindGust => Parameter {
                name: "U-Component of Wind Gust",
                abbreviation: "UGUST",
                unit: "m s-1",
            },
            MomentumProduct::VComponentWindGust => Parameter {
                name: "V-Component of Wind Gust",
                abbreviation: "VGUST",
                unit: "m s-1",
            },
            MomentumProduct::WindFetch => Parameter {
                name: "Wind Fetch",
                abbreviation: "FETCH",
                unit: "m",
            },
        }
    }
}

/// The mass product denoted by a parameter code byte.
pub open spec fn mass_product_of(code: u8) -> Option<MassProduct> {
    if code == 0 {
        Some(MassProduct::Pressure)
    } else if code == 1 {
        Some(MassProduct::PressureReducedMSL)
    } else if code == 2 {
        Some(MassProduct::PressureTendency)
    } else {
        None
    }
}

/// The parameter record of each mass product.
pub open spec fn mass_parameter_entry(p: MassProduct) -> ParameterEntry {
    match p {
        MassProduct::Pressure => ("Pressure"@, "PRES"@, "Pa"@),
        MassProduct::PressureReducedMSL => (
            "Pressure Reduced to Mean Sea Level"@,
            "PRMSL"@,
            "Pa"@,
        ),
        MassProduct::PressureTendency => ("Pressure Tendency"@, "PTEND"@, "Pa s-1"@),
    }
}

impl MassProduct {
    /// Decodes a mass parameter code byte.
    pub fn from_value(code: u8) -> (r: Option<MassProduct>)
        ensures
            r == mass_product_of(code),
    {
        if code == 0 {
            Some(MassProduct::Pressure)
        } else if code == 1 {
            Some(MassProduct::PressureReducedMSL)
        } else if code == 2 {
            Some(MassProduct::PressureTendency)
        } else {
            None
        }
    }

    /// The parameter record of this product.
    pub fn parameter(&self) -> (r: Parameter)
        ensures
            r.entry() == mass_parameter_entry(*self),
    {
        match self {
            MassProduct::Pressure => Parameter {
                name: "Pressure",
                abbreviation: "PRES",
                unit: "Pa",
            },
            MassProduct::PressureReducedMSL => Parameter {
                name: "Pressure Reduced to Mean Sea Level",
                abbreviation: "PRMSL",
                unit: "Pa",
            },
            MassProduct::PressureTendency => Parameter {
                name: "Pressure Tendency",
                abbreviation: "PTEND",
                unit: "Pa s-1",
            },
        }
    }
}

/// The category name of a meteorological product category code.
pub open spec fn meteorological_category_name(category: u8) -> Seq<char> {
    if category == 0 {
        "temperature"@
    } else if category == 1 {
        "moisture"@
    } else if category == 2 {
        "momentum"@
    } else if category == 3 {
        "mass"@
    } else {
        ""@
    }
}

/// Looks up the name of a meteorological product category.
pub fn meteorological_category(category: u8) -> (r: &'static str)
    ensures
        r@ == meteorological_category_name(category),
{
    if category == 0 {
        "temperature"
    } else if category == 1 {
        "moisture"
    } else if category == 2 {
        "momentum"
    } else if category == 3 {
        "mass"
    } else {
        ""
    }
}

/// The category name of an oceanographic product category code.
pub open spec fn oceanographic_category_name(category: u8) -> Seq<char> {
    if category == 0 {
        "waves"@
    } else if category == 1 {
        "currents"@
    } else if category == 2 {
        "ice"@
    } else if category == 3 {
        "surface properties"@
    } else {
        ""@
    }
}

/// Looks up the name of an oceanographic product category.
pub fn oceanographic_category(category: u8) -> (r: &'static str)
    ensures
        r@ == oceanographic_category_name(category),
{
    if category == 0 {
        "waves"
    } else if category == 1 {
        "currents"
    } else if category == 2 {
        "ice"
    } else if category == 3 {
        "surface properties"
    } else {
        ""
    }
}

/// The meteorological parameter table, partitioned by category.
pub open spec fn meteorological_parameter_entry(category: u8, parameter: u8) -> Option<
    ParameterEntry,
> {
    if category == 0 {
        match temperature_product_of(parameter) {
            Some(p) => Some(temperature_parameter_entry(p)),
            None => None,
        }
    } else if category == 1 {
        match moisture_product_of(parameter) {
            Some(p) => Some(moisture_parameter_entry(p)),
            None => None,
        }
    } else if category == 2 {
        match momentum_product_of(parameter) {
            Some(p) => Some(momentum_parameter_entry(p)),
            None => None,
        }
    } else if category == 3 {
        match mass_product_of(parameter) {
            Some(p) => Some(mass_parameter_entry(p)),
            None => None,
        }
    } else {
        None
    }
}

/// Looks up a meteorological parameter record by category and code.
pub fn meteorological_parameter(category: u8, parameter: u8) -> (r: Option<Parameter>)
    ensures
        r is Some <==> meteorological_parameter_entry(category, parameter) is Some,
        r matches Some(p) ==> meteorological_parameter_entry(category, parameter) == Some(
            p.entry(),
        ),
{
    if category == 0 {
        match TemperatureProduct::from_value(parameter) {
            Some(p) => Some(p.parameter()),
            None => None,
        }
    } else if category == 1 {
        match MoistureProduct::from_value(parameter) {
            Some(p) => Some(p.parameter()),
            None => None,
        }
    } else if category == 2 {
        match MomentumProduct::from_value(parameter) {
            Some(p) => Some(p.parameter()),
            None => None,
        }
    } else if category == 3 {
        match MassProduct::from_value(parameter) {
            Some(p) => Some(p.parameter()),
            None => None,
        }
    } else {
        None
    }
}

/// The oceanographic parameter table, partitioned by category; the waves
/// category covers the commonly distributed sea-state quantities.
pub open spec fn oceanographic_parameter_entry(category: u8, parameter: u8) -> Option<
    ParameterEntry,
> {
    if category == 0 {
        if parameter == 3 {
            Some(("Significant Wave Height"@, "HTSGW"@, "m"@))
        } else if parameter == 4 {
            Some(("Direction of Wind Waves"@, "WVDIR"@, "degree true"@))
        } else if parameter == 5 {
            Some(("Significant Height of Wind Waves"@, "WVHGT"@, "m"@))
        } else if parameter == 6 {
            Some(("Mean Period of Wind Waves"@, "WVPER"@, "s"@))
        } else if parameter == 11 {
            Some(("Primary Wave Mean Period"@, "PERPW"@, "s"@))
        } else if parameter == 10 {
            Some(("Primary Wave Direction"@, "DIRPW"@, "degree true"@))
        } else {
            None
        }
    } else {
        None
    }
}

/// Looks up an oceanographic parameter record by category and code.
pub fn oceanographic_parameter(category: u8, parameter: u8) -> (r: Option<Parameter>)
    ensures
        r is Some <==> oceanographic_parameter_entry(category, parameter) is Some,
        r matches Some(p) ==> oceanographic_parameter_entry(category, parameter) == Some(
            p.entry(),
        ),
{
    if category == 0 {
        if parameter == 3 {
            Some(Parameter { name: "Significant Wave Height", abbreviation: "HTSGW", unit: "m" })
        } else if parameter == 4 {
            Some(
                Parameter {
                    name: "Direction of Wind Waves",
                    abbreviation: "WVDIR",
                    unit: "degree true",
                },
            )
        } else if parameter == 5 {
            Some(
                Parameter {
                    name: "Significant Height of Wind Waves",
                    abbreviation: "WVHGT",
                    unit: "m",
                },
            )
        } else if parameter == 6 {
            Some(Parameter { name: "Mean Period of Wind Waves", abbreviation: "WVPER", unit: "s" })
        } else if parameter == 11 {
            Some(Parameter { name: "Primary Wave Mean Period", abbreviation: "PERPW", unit: "s" })
        } else if parameter == 10 {
            Some(
                Parameter {
                    name: "Primary Wave Direction",
                    abbreviation: "DIRPW",
                    unit: "degree true",
                },
            )
        } else {
            None
        }
    } else {
        None
    }
}

/// The parameter table consulted for a discipline: the tables are
/// partitioned by discipline, then by category.
pub open spec fn parameter_entry_for(discipline: u8, category: u8, parameter: u8) -> Option<
    ParameterEntry,
> {
    if discipline == 0 {
        meteorological_parameter_entry(category, parameter)
    } else if discipline == 10 {
        oceanographic_parameter_entry(category, parameter)
    } else {
        None
    }
}

/// The category name consulted for a discipline; disciplines without a
/// table yield the empty name.
pub open spec fn category_name_for(discipline: u8, category: u8) -> Seq<char> {
    if discipline == 0 {
        meteorological_category_name(category)
    } else if discipline == 10 {
        oceanographic_category_name(category)
    } else {
        ""@
    }
}

} // verus!
