use alimentador::ciclo::{
    Ciclo, CicloData, DURACION_MAX, DURACION_MIN, ESPERA_MAX, ESPERA_MIN, PULSOS_MAX, PULSOS_MIN,
};
use alimentador::errors::CicloError;
use alimentador::rango::RangoData;
use uuid::Uuid;

fn assert_return_type<T>(_val: &T) {}

#[test]
fn ciclo_test_valores_iniciales() {
    let ciclo = Ciclo::new();

    assert_eq!(
        ciclo.get_pulsos(),
        PULSOS_MIN,
        "Los pulsos iniciales no es: {}",
        PULSOS_MIN
    );
    assert_eq!(
        ciclo.get_pulso_espera(),
        ESPERA_MIN,
        "La espera inicial no es: {}",
        ESPERA_MIN
    );
    assert_eq!(
        ciclo.get_pulso_duracion(),
        DURACION_MIN,
        "La duración inicial no es: {}",
        DURACION_MIN
    );
}

#[test]
fn ciclo_test_unicidad() {
    let id1 = Ciclo::new().get_id();
    let id2 = Ciclo::new().get_id();
    assert_ne!(id1, id2, "Las ID no son únicas");
}

#[test]
fn ciclo_test_validez() {
    let id = Ciclo::new().get_id();
    let parsed_id = Uuid::parse_str(&id.to_string());
    assert!(parsed_id.is_ok(), "El ID no es un UUID válido");
}

#[test]
fn ciclo_tets_is_v4() {
    let id = Ciclo::new().get_id();
    let parsed_id = Uuid::parse_str(&id.to_string());
    assert_eq!(
        parsed_id.unwrap().get_version(),
        Some(uuid::Version::Random),
        "La ID no es un UUID v4"
    );
}

#[test]
fn test_establece_pulsos() {
    let mut ciclo = Ciclo::new();

    assert_eq!(
        ciclo.get_pulsos(),
        PULSOS_MIN,
        "Los pulsos no son: {}",
        PULSOS_MIN
    );

    ciclo
        .set_pulsos(PULSOS_MAX)
        .expect("Ha intentado establecer una cantidad de pulsos fuera del rango");
    assert_eq!(
        ciclo.get_pulsos(),
        PULSOS_MAX,
        "Los pulsos no son: {}",
        PULSOS_MAX
    );
}

/// Above the range of the pulse count, the duration and the wait.
#[test]
fn ciclo_test_sobre_el_rango() {
    let mut ciclo = Ciclo::new();
    assert_eq!(
        ciclo.get_pulsos(),
        PULSOS_MIN,
        "Los pulsos no son: {}",
        PULSOS_MIN
    );
    let response = ciclo.set_pulsos(PULSOS_MAX + 1);
    assert_eq!(
        response,
        Err(CicloError::CantidadFueraDeRango),
        "Los errores no coinciden"
    );

    let mut ciclo = Ciclo::new();
    assert_eq!(
        ciclo.get_pulso_duracion(),
        DURACION_MIN,
        "La duración no es: {}",
        DURACION_MIN
    );
    let response = ciclo.set_pulso_duracion(DURACION_MAX + 1);
    assert_eq!(
        response,
        Err(CicloError::DuracionFueraDeRango),
        "Los errores no coinciden"
    );

    let mut ciclo = Ciclo::new();
    assert_eq!(ciclo.get_pulso_espera(), ESPERA_MIN, "La espera no es mil");
    let response = ciclo.set_pulso_espera(ESPERA_MAX + 1);
    assert_eq!(
        response,
        Err(CicloError::EsperaFueraDeRango),
        "Los errores no coinciden"
    );
}

/// Setting the duration, then the wait, within their ranges.
#[test]
fn ciclo_test_establece_duracion() {
    let mut ciclo = Ciclo::new();
    assert_eq!(
        ciclo.get_pulso_duracion(),
        DURACION_MIN,
        "La duracion no es: {}",
        DURACION_MIN
    );
    ciclo
        .set_pulso_duracion(DURACION_MAX)
        .expect("Ha intentado establecer una duracion fuera del rango");
    assert_eq!(
        ciclo.get_pulso_duracion(),
        DURACION_MAX,
        "La duracion no es: {}",
        DURACION_MAX
    );

    let mut ciclo = Ciclo::new();
    assert_eq!(ciclo.get_pulso_espera(), 1000, "Los pulsos no son mil");
    ciclo
        .set_pulso_espera(10000)
        .expect("Ha intentado establecer una espera fuera del rango");
    assert_eq!(ciclo.get_pulso_espera(), 10000, "Los pulsos no son 10000");
}

/// Below the range of the duration and of the wait.
#[test]
fn ciclo_test_bajo_el_rango() {
    let mut ciclo = Ciclo::new();
    assert_eq!(
        ciclo.get_pulso_duracion(),
        DURACION_MIN,
        "La duracion no es: {}",
        DURACION_MIN
    );
    let response = ciclo.set_pulso_duracion(DURACION_MIN - 1);
    assert_eq!(
        response,
        Err(CicloError::DuracionFueraDeRango),
        "Los errores no coinciden"
    );

    let mut ciclo = Ciclo::new();
    assert_eq!(ciclo.get_pulso_espera(), 1000, "La espera no es mil");
    let response = ciclo.set_pulso_espera(999);
    assert_eq!(
        response,
        Err(CicloError::EsperaFueraDeRango),
        "Los errores no coinciden"
    );
}

#[test]
fn test_get_pulso() {
    let b = Ciclo::new().get_pulsos();

    assert_return_type::<u32>(&b);
    assert!(
        std::mem::size_of_val(&b) == std::mem::size_of::<u32>(),
        "El pulso no es de tipo u32"
    );
}

#[test]
fn test_get_pulso_espera() {
    let b = Ciclo::new().get_pulso_espera();

    assert_return_type::<u32>(&b);
    assert!(
        std::mem::size_of_val(&b) == std::mem::size_of::<u32>(),
        "La espera no es de tipo u32"
    );
}

#[test]
fn test_get_pulso_duracion() {
    let b = Ciclo::new().get_pulso_duracion();

    assert_return_type::<u32>(&b);
    assert!(
        std::mem::size_of_val(&b) == std::mem::size_of::<u32>(),
        "La duración no es de tipo u32"
    );
}

/// The pulse count of the snapshot: its type, the type of its bounds, and their values.
#[test]
fn ciclo_test_pulso() {
    let ciclo = Ciclo::new();
    let b = ciclo.get_all();
    assert_return_type::<RangoData>(&b.pulsos);

    let ciclo = Ciclo::new();
    let b = ciclo.get_all();
    assert_return_type::<u32>(&b.pulsos.min);
    assert_return_type::<u32>(&b.pulsos.max);

    let ciclo = Ciclo::new();
    let b = ciclo.get_all();
    assert_eq!(
        b.pulsos.min, PULSOS_MIN,
        "El limite inferior de los pulsos no coincide"
    );
    assert_eq!(
        b.pulsos.max, PULSOS_MAX,
        "El limite superior de los pulsos no coincide"
    );
}

/// The duration of the snapshot: its type, the type of its bounds, and their values.
#[test]
fn ciclo_test_duracion() {
    let ciclo = Ciclo::new();
    let b = ciclo.get_all();
    assert_return_type::<RangoData>(&b.duracion);

    let ciclo = Ciclo::new();
    let b = ciclo.get_all();
    assert_return_type::<u32>(&b.duracion.min);
    assert_return_type::<u32>(&b.duracion.max);

    let ciclo = Ciclo::new();
    let b = ciclo.get_all();
    assert_eq!(
        b.duracion.min, DURACION_MIN,
        "El limite inferior de la duración no coincide"
    );
    assert_eq!(
        b.duracion.max, DURACION_MAX,
        "El limite superior de la duración no coincide"
    );
}

#[test]
fn test_espera() {
    let ciclo = Ciclo::new();

    let b = ciclo.get_all();

    assert_return_type::<RangoData>(&b.espera);
}

#[test]
fn test_all() {
    let b = Ciclo::new().get_all();

    assert_return_type::<CicloData>(&b);
}

/// The wait of the snapshot: the type of its bounds, and their values.
#[test]
fn ciclo_test_espera_tipo() {
    let ciclo = Ciclo::new();
    let b = ciclo.get_all();
    assert_return_type::<u32>(&b.espera.min);
    assert_return_type::<u32>(&b.espera.max);

    let ciclo = Ciclo::new();
    let b = ciclo.get_all();
    assert_eq!(
        b.espera.min, ESPERA_MIN,
        "El limite inferior de la espera no coincide"
    );
    assert_eq!(
        b.espera.max, ESPERA_MAX,
        "El limite superior de la espera no coincide"
    );
}

#[test]
fn duracion_bajo_el_rango_no_cambia() {
    let mut ciclo = Ciclo::new();
    assert_eq!(ciclo.set_pulso_duracion(500), Err(CicloError::DuracionFueraDeRango));
    assert_eq!(ciclo.get_pulso_duracion(), 1000);
}

#[test]
fn instantanea_tras_fijar_pulsos() {
    let mut ciclo = Ciclo::new();
    for k in [0u32, 1, 37, 9999, 10000] {
        assert_eq!(ciclo.set_pulsos(k), Ok(()));
        assert_eq!(ciclo.get_all().pulsos.valor, k);
    }
    assert_eq!(ciclo.set_pulsos(10001), Err(CicloError::CantidadFueraDeRango));
    assert_eq!(ciclo.get_all().pulsos.valor, 10000);
}

#[test]
fn instantanea_completa() {
    let mut ciclo = Ciclo::new();
    ciclo.set_pulsos(50).unwrap();
    ciclo.set_pulso_duracion(5000).unwrap();
    ciclo.set_pulso_espera(8000).unwrap();
    let datos = ciclo.get_all();
    assert_eq!((datos.pulsos.valor, datos.duracion.valor, datos.espera.valor), (50, 5000, 8000));
    assert_eq!((datos.espera.min, datos.espera.max), (1000, 20000));
}
