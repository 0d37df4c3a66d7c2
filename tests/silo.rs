use alimentador::errors::SiloError;
use alimentador::silo::Silo;
use uuid::Uuid;

const CAPACIDAD_SILOS: u32 = 24000;
const GRAMOS_PULSO: u32 = 25;

#[test]
fn test_alimento_inicial() {
    let silo = Silo::new(CAPACIDAD_SILOS);
    assert_eq!(silo.get_alimento(), 0);
}

#[test]
fn test_historico_inicial() {
    let silo = Silo::new(CAPACIDAD_SILOS);

    assert_eq!(silo.get_historico(), 0);
}

#[test]
fn silo_test_unicidad() {
    let silo = Silo::new(CAPACIDAD_SILOS);
    let id1 = silo.get_id();
    let id2 = Silo::new(CAPACIDAD_SILOS).get_id();
    assert_ne!(id1, id2, "Las ID no son únicas");
}

#[test]
fn silo_test_validez() {
    let silo = Silo::new(CAPACIDAD_SILOS);
    let id = silo.get_id();
    let parsed_id = Uuid::parse_str(&id.to_string());
    assert!(parsed_id.is_ok(), "El ID no es un UUID válido");
}

#[test]
fn silo_tets_is_v4() {
    let silo = Silo::new(CAPACIDAD_SILOS);
    let id = silo.get_id();
    let parsed_id = Uuid::parse_str(&id.to_string());
    assert_eq!(
        parsed_id.unwrap().get_version(),
        Some(uuid::Version::Random),
        "La ID no es un UUID v4"
    );
}

#[test]
fn test_aumenta_alimento() {
    let mut silo = Silo::new(CAPACIDAD_SILOS);

    silo.set_alimento(10)
        .expect("[test_aumenta_alimento]: No se ha podido actualizar [Linea 70]");
    assert_eq!(silo.get_alimento(), 10);
}

#[test]
fn test_aumenta() {
    let mut silo = Silo::new(CAPACIDAD_SILOS);
    silo.set_alimento(11)
        .expect("[test_aumenta]: No se ha actualizado el alimento");
    assert_eq!(silo.get_historico(), 11);
}

#[test]
fn test_no_disminuye() {
    let mut silo = Silo::new(CAPACIDAD_SILOS);

    assert_eq!(silo.get_historico(), 0);

    silo.set_alimento(11)
        .expect("[test_no_disminuye]: No se ha actualizado el alimento [11]");
    assert_eq!(silo.get_historico(), 11);
    silo.set_alimento(8)
        .expect("[test_no_disminuye]: No se ha actualizado el alimento [8]");

    assert_ne!(silo.get_historico(), 8);
}

#[test]
fn test_aumenta_varias_veces() {
    let mut silo = Silo::new(CAPACIDAD_SILOS);

    for i in 1..=100 {
        silo.set_alimento(i).expect(
            "[test_aumenta_varias_veces]: No se ha podido actualizar alimento [Linea 105]",
        );
        assert_eq!(silo.get_historico(), i);
    }

    silo.set_alimento(0)
        .expect("[test_aumenta_varias_veces]: No se ha podido actualiza [Linea 111]");
    assert_eq!(silo.get_historico(), 100);

    for i in 1..100 {
        silo.set_alimento(i).expect(
            "[test_aumenta_varias_veces]: No se ha podido actualizar alimento [Linea 116]",
        );
        assert_eq!(silo.get_historico(), i + 100);
    }
}

#[test]
fn test_get_alimento() {
    let silo = Silo::new(CAPACIDAD_SILOS);
    assert_eq!(silo.get_alimento(), 0);
}

#[test]
fn test_actualiza_alimento() {
    let mut silo = Silo::new(CAPACIDAD_SILOS);

    silo.set_alimento(CAPACIDAD_SILOS).expect(
        "[test_actualiza_alimento]: No se ha podido actualizar el alimento [Linea 141]",
    );

    silo.entregar_pulso(GRAMOS_PULSO)
        .expect("[test_actualiza_alimento]: No se ha podido entregar pulso [Linea 145]");
    assert_eq!(silo.get_alimento(), CAPACIDAD_SILOS - GRAMOS_PULSO);

    silo.entregar_pulso(CAPACIDAD_SILOS - GRAMOS_PULSO)
        .expect("[test_actualiza_alimento]:  No se ha podido entregar pulso [Linea 149]");
    assert_eq!(silo.get_alimento(), 0);
}

#[test]
fn test_no_actualiza_historico() {
    let mut silo = Silo::new(CAPACIDAD_SILOS);

    silo.set_alimento(CAPACIDAD_SILOS)
        .expect("Ha sobrepasado la capacidad");
    let historico = silo.get_historico();

    silo.entregar_pulso(GRAMOS_PULSO).expect(&format!(
        "El silo es incapaz de entregar {} gramos",
        GRAMOS_PULSO
    ));
    assert_eq!(
        silo.get_historico(),
        historico,
        "El valor de historico ha cambiado"
    );
}

#[test]
fn test_no_entrega_vacio() {
    let mut silo = Silo::new(CAPACIDAD_SILOS);

    let resultado = silo.entregar_pulso(GRAMOS_PULSO);

    assert_eq!(resultado, Err(SiloError::SinAlimento));
}

#[test]
fn llenado_completo_y_entrega() {
    let mut silo = Silo::new(24000);
    assert_eq!(silo.set_alimento(24000), Ok(()));
    assert_eq!(silo.get_alimento(), 24000);
    assert_eq!(silo.get_historico(), 24000);
    assert_eq!(silo.entregar_pulso(25), Ok(()));
    assert_eq!(silo.get_alimento(), 23975);
    assert_eq!(silo.get_historico(), 24000);
}

#[test]
fn entrega_en_silo_vacio() {
    let mut silo = Silo::new(24000);
    assert_eq!(silo.entregar_pulso(25), Err(SiloError::SinAlimento));
    assert_eq!(silo.get_alimento(), 0);
    assert_eq!(silo.get_historico(), 0);
}

#[test]
fn entrega_exacta_vacia_el_silo() {
    let mut silo = Silo::new(500);
    silo.set_alimento(300).unwrap();
    assert_eq!(silo.entregar_pulso(300), Ok(()));
    assert_eq!(silo.get_alimento(), 0);
    assert_eq!(silo.get_historico(), 300);
    assert_eq!(silo.entregar_pulso(1), Err(SiloError::SinAlimento));
    assert_eq!(silo.get_alimento(), 0);
}

#[test]
fn llenado_sobre_la_capacidad_no_cambia_nada() {
    let mut silo = Silo::new(100);
    silo.set_alimento(40).unwrap();
    assert_eq!(silo.set_alimento(101), Err(SiloError::FueraDeRango));
    assert_eq!(silo.get_alimento(), 40);
    assert_eq!(silo.get_historico(), 40);
    assert_eq!(silo.set_alimento(100), Ok(()));
    assert_eq!(silo.get_historico(), 100);
}

#[test]
fn historico_desbordado_no_cambia_nada() {
    let mut silo = Silo::new(u32::MAX);
    silo.set_alimento(u32::MAX).unwrap();
    silo.set_alimento(0).unwrap();
    assert_eq!(silo.get_historico(), u32::MAX);
    assert_eq!(silo.set_alimento(1), Err(SiloError::FueraDeRango));
    assert_eq!(silo.get_alimento(), 0);
    assert_eq!(silo.get_historico(), u32::MAX);
    assert_eq!(silo.set_alimento(0), Ok(()));
}

#[test]
fn historico_nunca_disminuye() {
    let mut silo = Silo::new(1000);
    let mut anterior = silo.get_historico();
    let pasos: [(bool, u32); 8] = [
        (true, 500),
        (false, 200),
        (true, 900),
        (false, 2000),
        (true, 1001),
        (true, 100),
        (false, 100),
        (true, 1000),
    ];
    let esperados: [u32; 8] = [500, 500, 1100, 1100, 1100, 1100, 1100, 2100];
    for (k, (fijar, n)) in pasos.iter().enumerate() {
        let alimento_previo = silo.get_alimento();
        let r = if *fijar {
            silo.set_alimento(*n)
        } else {
            silo.entregar_pulso(*n)
        };
        if *fijar && r.is_ok() && *n > alimento_previo {
            assert_eq!(silo.get_historico(), anterior + (*n - alimento_previo));
        } else {
            assert_eq!(silo.get_historico(), anterior);
        }
        assert!(silo.get_historico() >= anterior);
        assert_eq!(silo.get_historico(), esperados[k]);
        anterior = silo.get_historico();
    }
}
